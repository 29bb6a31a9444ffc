//! The error kind taxonomy: a closed, enumerable set of named failure
//! categories with stable snake_case wire tags. Three variants carry a single
//! descriptive string payload; all others carry none. Renaming or removing a
//! tag is a breaking wire change, so the tags are fixed here once.

use vstd::prelude::*;
use vstd::string::*;

verus! {

/// The number of variants the taxonomy declares.
pub const VARIANT_COUNT: usize = 136;

/// The closed set of domain-level failure reasons. Equality is structural:
/// same variant, and for the payload variants the same payload.
#[derive(Debug, Clone, PartialEq, Eq)]
pub enum LemmyErrorType {
    ReportReasonRequired,
    ReportTooLong,
    NotAModerator,
    NotAnAdmin,
    CantBlockYourself,
    CantBlockAdmin,
    CouldntUpdateUser,
    PasswordsDoNotMatch,
    PasswordIncorrect,
    EmailNotVerified,
    EmailRequired,
    CouldntUpdateComment,
    CouldntUpdatePrivateMessage,
    CannotLeaveAdmin,
    NoLinesInHtml,
    SiteMetadataPageIsNotDoctypeHtml,
    PictrsResponseError(String),
    PictrsPurgeResponseError(String),
    ImageUrlMissingPathSegments,
    ImageUrlMissingLastPathSegment,
    PictrsApiKeyNotProvided,
    NoContentTypeHeader,
    NotAnImageType,
    NotAModOrAdmin,
    NoAdmins,
    NotTopAdmin,
    NotTopMod,
    NotLoggedIn,
    SiteBan,
    Deleted,
    BannedFromCommunity,
    CouldntFindCommunity,
    PersonIsBlocked,
    DownvotesAreDisabled,
    InstanceIsPrivate,
    InvalidPassword,
    SiteDescriptionLengthOverflow,
    HoneypotFailed,
    RegistrationApplicationIsPending,
    CantEnablePrivateInstanceAndFederationTogether,
    Locked,
    CouldntCreateComment,
    MaxCommentDepthReached,
    NoCommentEditAllowed,
    OnlyAdminsCanCreateCommunities,
    CommunityAlreadyExists,
    LanguageNotAllowed,
    OnlyModsCanPostInCommunity,
    CouldntUpdatePost,
    NoPostEditAllowed,
    CouldntFindPost,
    EditPrivateMessageNotAllowed,
    SiteAlreadyExists,
    ApplicationQuestionRequired,
    InvalidDefaultPostListingType,
    RegistrationClosed,
    RegistrationApplicationAnswerRequired,
    EmailAlreadyExists,
    FederationForbiddenByStrictAllowList,
    PersonIsBannedFromCommunity,
    ObjectIsNotPublic,
    InvalidCommunity,
    CannotCreatePostOrCommentInDeletedOrRemovedCommunity,
    CannotReceivePage,
    NewPostCannotBeLocked,
    OnlyLocalAdminCanRemoveCommunity,
    OnlyLocalAdminCanRestoreCommunity,
    NoIdGiven,
    CouldntFindUsernameOrEmail,
    InvalidQuery,
    ObjectNotLocal,
    PostIsLocked,
    PersonIsBannedFromSite,
    InvalidVoteValue,
    PageDoesNotSpecifyCreator,
    PageDoesNotSpecifyGroup,
    NoCommunityFoundInCc,
    NoEmailSetup,
    EmailSmtpServerNeedsAPort,
    MissingAnEmail,
    RateLimitError,
    InvalidName,
    InvalidDisplayName,
    InvalidMatrixId,
    InvalidPostTitle,
    InvalidBodyField,
    BioLengthOverflow,
    MissingTotpToken,
    IncorrectTotpToken,
    CouldntParseTotpSecret,
    CouldntLikeComment,
    CouldntSaveComment,
    CouldntCreateReport,
    CouldntResolveReport,
    CommunityModeratorAlreadyExists,
    CommunityUserAlreadyBanned,
    CommunityBlockAlreadyExists,
    CommunityFollowerAlreadyExists,
    CouldntUpdateCommunityHiddenStatus,
    PersonBlockAlreadyExists,
    UserAlreadyExists,
    TokenNotFound,
    CouldntLikePost,
    CouldntSavePost,
    CouldntMarkPostAsRead,
    CouldntUpdateCommunity,
    CouldntUpdateReplies,
    CouldntUpdatePersonMentions,
    PostTitleTooLong,
    CouldntCreatePost,
    CouldntCreatePrivateMessage,
    CouldntUpdatePrivate,
    SystemErrLogin,
    CouldntSetAllRegistrationsAccepted,
    CouldntSetAllEmailVerified,
    Banned,
    CouldntGetComments,
    CouldntGetPosts,
    InvalidUrl,
    EmailSendFailed,
    Slurs,
    CouldntGenerateTotp,
    CouldntFindObject,
    RegistrationDenied(String),
    FederationDisabled,
    DomainBlocked,
    DomainNotInAllowList,
    FederationDisabledByStrictAllowList,
    SiteNameRequired,
    SiteNameLengthOverflow,
    PermissiveRegex,
    InvalidRegex,
    CaptchaIncorrect,
    PasswordResetLimitReached,
    CouldntCreateAudioCaptcha,
    Unknown,
}

impl LemmyErrorType {
    /// The stable snake_case wire tag of each variant, independent of any
    /// payload the variant carries.
    pub open spec fn tag_spec(self) -> Seq<char> {
        match self {
            LemmyErrorType::ReportReasonRequired => "report_reason_required"@,
            LemmyErrorType::ReportTooLong => "report_too_long"@,
            LemmyErrorType::NotAModerator => "not_a_moderator"@,
            LemmyErrorType::NotAnAdmin => "not_an_admin"@,
            LemmyErrorType::CantBlockYourself => "cant_block_yourself"@,
            LemmyErrorType::CantBlockAdmin => "cant_block_admin"@,
            LemmyErrorType::CouldntUpdateUser => "couldnt_update_user"@,
            LemmyErrorType::PasswordsDoNotMatch => "passwords_do_not_match"@,
            LemmyErrorType::PasswordIncorrect => "password_incorrect"@,
            LemmyErrorType::EmailNotVerified => "email_not_verified"@,
            LemmyErrorType::EmailRequired => "email_required"@,
            LemmyErrorType::CouldntUpdateComment => "couldnt_update_comment"@,
            LemmyErrorType::CouldntUpdatePrivateMessage => "couldnt_update_private_message"@,
            LemmyErrorType::CannotLeaveAdmin => "cannot_leave_admin"@,
            LemmyErrorType::NoLinesInHtml => "no_lines_in_html"@,
            LemmyErrorType::SiteMetadataPageIsNotDoctypeHtml => "site_metadata_page_is_not_doctype_html"@,
            LemmyErrorType::PictrsResponseError(_) => "pictrs_response_error"@,
            LemmyErrorType::PictrsPurgeResponseError(_) => "pictrs_purge_response_error"@,
            LemmyErrorType::ImageUrlMissingPathSegments => "image_url_missing_path_segments"@,
            LemmyErrorType::ImageUrlMissingLastPathSegment => "image_url_missing_last_path_segment"@,
            LemmyErrorType::PictrsApiKeyNotProvided => "pictrs_api_key_not_provided"@,
            LemmyErrorType::NoContentTypeHeader => "no_content_type_header"@,
            LemmyErrorType::NotAnImageType => "not_an_image_type"@,
            LemmyErrorType::NotAModOrAdmin => "not_a_mod_or_admin"@,
            LemmyErrorType::NoAdmins => "no_admins"@,
            LemmyErrorType::NotTopAdmin => "not_top_admin"@,
            LemmyErrorType::NotTopMod => "not_top_mod"@,
            LemmyErrorType::NotLoggedIn => "not_logged_in"@,
            LemmyErrorType::SiteBan => "site_ban"@,
            LemmyErrorType::Deleted => "deleted"@,
            LemmyErrorType::BannedFromCommunity => "banned_from_community"@,
            LemmyErrorType::CouldntFindCommunity => "couldnt_find_community"@,
            LemmyErrorType::PersonIsBlocked => "person_is_blocked"@,
            LemmyErrorType::DownvotesAreDisabled => "downvotes_are_disabled"@,
            LemmyErrorType::InstanceIsPrivate => "instance_is_private"@,
            LemmyErrorType::InvalidPassword => "invalid_password"@,
            LemmyErrorType::SiteDescriptionLengthOverflow => "site_description_length_overflow"@,
            LemmyErrorType::HoneypotFailed => "honeypot_failed"@,
            LemmyErrorType::RegistrationApplicationIsPending => "registration_application_is_pending"@,
            LemmyErrorType::CantEnablePrivateInstanceAndFederationTogether => "cant_enable_private_instance_and_federation_together"@,
            LemmyErrorType::Locked => "locked"@,
            LemmyErrorType::CouldntCreateComment => "couldnt_create_comment"@,
            LemmyErrorType::MaxCommentDepthReached => "max_comment_depth_reached"@,
            LemmyErrorType::NoCommentEditAllowed => "no_comment_edit_allowed"@,
            LemmyErrorType::OnlyAdminsCanCreateCommunities => "only_admins_can_create_communities"@,
            LemmyErrorType::CommunityAlreadyExists => "community_already_exists"@,
            LemmyErrorType::LanguageNotAllowed => "language_not_allowed"@,
            LemmyErrorType::OnlyModsCanPostInCommunity => "only_mods_can_post_in_community"@,
            LemmyErrorType::CouldntUpdatePost => "couldnt_update_post"@,
            LemmyErrorType::NoPostEditAllowed => "no_post_edit_allowed"@,
            LemmyErrorType::CouldntFindPost => "couldnt_find_post"@,
            LemmyErrorType::EditPrivateMessageNotAllowed => "edit_private_message_not_allowed"@,
            LemmyErrorType::SiteAlreadyExists => "site_already_exists"@,
            LemmyErrorType::ApplicationQuestionRequired => "application_question_required"@,
            LemmyErrorType::InvalidDefaultPostListingType => "invalid_default_post_listing_type"@,
            LemmyErrorType::RegistrationClosed => "registration_closed"@,
            LemmyErrorType::RegistrationApplicationAnswerRequired => "registration_application_answer_required"@,
            LemmyErrorType::EmailAlreadyExists => "email_already_exists"@,
            LemmyErrorType::FederationForbiddenByStrictAllowList => "federation_forbidden_by_strict_allow_list"@,
            LemmyErrorType::PersonIsBannedFromCommunity => "person_is_banned_from_community"@,
            LemmyErrorType::ObjectIsNotPublic => "object_is_not_public"@,
            LemmyErrorType::InvalidCommunity => "invalid_community"@,
            LemmyErrorType::CannotCreatePostOrCommentInDeletedOrRemovedCommunity => "cannot_create_post_or_comment_in_deleted_or_removed_community"@,
            LemmyErrorType::CannotReceivePage => "cannot_receive_page"@,
            LemmyErrorType::NewPostCannotBeLocked => "new_post_cannot_be_locked"@,
            LemmyErrorType::OnlyLocalAdminCanRemoveCommunity => "only_local_admin_can_remove_community"@,
            LemmyErrorType::OnlyLocalAdminCanRestoreCommunity => "only_local_admin_can_restore_community"@,
            LemmyErrorType::NoIdGiven => "no_id_given"@,
            LemmyErrorType::CouldntFindUsernameOrEmail => "couldnt_find_username_or_email"@,
            LemmyErrorType::InvalidQuery => "invalid_query"@,
            LemmyErrorType::ObjectNotLocal => "object_not_local"@,
            LemmyErrorType::PostIsLocked => "post_is_locked"@,
            LemmyErrorType::PersonIsBannedFromSite => "person_is_banned_from_site"@,
            LemmyErrorType::InvalidVoteValue => "invalid_vote_value"@,
            LemmyErrorType::PageDoesNotSpecifyCreator => "page_does_not_specify_creator"@,
            LemmyErrorType::PageDoesNotSpecifyGroup => "page_does_not_specify_group"@,
            LemmyErrorType::NoCommunityFoundInCc => "no_community_found_in_cc"@,
            LemmyErrorType::NoEmailSetup => "no_email_setup"@,
            LemmyErrorType::EmailSmtpServerNeedsAPort => "email_smtp_server_needs_a_port"@,
            LemmyErrorType::MissingAnEmail => "missing_an_email"@,
            LemmyErrorType::RateLimitError => "rate_limit_error"@,
            LemmyErrorType::InvalidName => "invalid_name"@,
            LemmyErrorType::InvalidDisplayName => "invalid_display_name"@,
            LemmyErrorType::InvalidMatrixId => "invalid_matrix_id"@,
            LemmyErrorType::InvalidPostTitle => "invalid_post_title"@,
            LemmyErrorType::InvalidBodyField => "invalid_body_field"@,
            LemmyErrorType::BioLengthOverflow => "bio_length_overflow"@,
            LemmyErrorType::MissingTotpToken => "missing_totp_token"@,
            LemmyErrorType::IncorrectTotpToken => "incorrect_totp_token"@,
            LemmyErrorType::CouldntParseTotpSecret => "couldnt_parse_totp_secret"@,
            LemmyErrorType::CouldntLikeComment => "couldnt_like_comment"@,
            LemmyErrorType::CouldntSaveComment => "couldnt_save_comment"@,
            LemmyErrorType::CouldntCreateReport => "couldnt_create_report"@,
            LemmyErrorType::CouldntResolveReport => "couldnt_resolve_report"@,
            LemmyErrorType::CommunityModeratorAlreadyExists => "community_moderator_already_exists"@,
            LemmyErrorType::CommunityUserAlreadyBanned => "community_user_already_banned"@,
            LemmyErrorType::CommunityBlockAlreadyExists => "community_block_already_exists"@,
            LemmyErrorType::CommunityFollowerAlreadyExists => "community_follower_already_exists"@,
            LemmyErrorType::CouldntUpdateCommunityHiddenStatus => "couldnt_update_community_hidden_status"@,
            LemmyErrorType::PersonBlockAlreadyExists => "person_block_already_exists"@,
            LemmyErrorType::UserAlreadyExists => "user_already_exists"@,
            LemmyErrorType::TokenNotFound => "token_not_found"@,
            LemmyErrorType::CouldntLikePost => "couldnt_like_post"@,
            LemmyErrorType::CouldntSavePost => "couldnt_save_post"@,
            LemmyErrorType::CouldntMarkPostAsRead => "couldnt_mark_post_as_read"@,
            LemmyErrorType::CouldntUpdateCommunity => "couldnt_update_community"@,
            LemmyErrorType::CouldntUpdateReplies => "couldnt_update_replies"@,
            LemmyErrorType::CouldntUpdatePersonMentions => "couldnt_update_person_mentions"@,
            LemmyErrorType::PostTitleTooLong => "post_title_too_long"@,
            LemmyErrorType::CouldntCreatePost => "couldnt_create_post"@,
            LemmyErrorType::CouldntCreatePrivateMessage => "couldnt_create_private_message"@,
            LemmyErrorType::CouldntUpdatePrivate => "couldnt_update_private"@,
            LemmyErrorType::SystemErrLogin => "system_err_login"@,
            LemmyErrorType::CouldntSetAllRegistrationsAccepted => "couldnt_set_all_registrations_accepted"@,
            LemmyErrorType::CouldntSetAllEmailVerified => "couldnt_set_all_email_verified"@,
            LemmyErrorType::Banned => "banned"@,
            LemmyErrorType::CouldntGetComments => "couldnt_get_comments"@,
            LemmyErrorType::CouldntGetPosts => "couldnt_get_posts"@,
            LemmyErrorType::InvalidUrl => "invalid_url"@,
            LemmyErrorType::EmailSendFailed => "email_send_failed"@,
            LemmyErrorType::Slurs => "slurs"@,
            LemmyErrorType::CouldntGenerateTotp => "couldnt_generate_totp"@,
            LemmyErrorType::CouldntFindObject => "couldnt_find_object"@,
            LemmyErrorType::RegistrationDenied(_) => "registration_denied"@,
            LemmyErrorType::FederationDisabled => "federation_disabled"@,
            LemmyErrorType::DomainBlocked => "domain_blocked"@,
            LemmyErrorType::DomainNotInAllowList => "domain_not_in_allow_list"@,
            LemmyErrorType::FederationDisabledByStrictAllowList => "federation_disabled_by_strict_allow_list"@,
            LemmyErrorType::SiteNameRequired => "site_name_required"@,
            LemmyErrorType::SiteNameLengthOverflow => "site_name_length_overflow"@,
            LemmyErrorType::PermissiveRegex => "permissive_regex"@,
            LemmyErrorType::InvalidRegex => "invalid_regex"@,
            LemmyErrorType::CaptchaIncorrect => "captcha_incorrect"@,
            LemmyErrorType::PasswordResetLimitReached => "password_reset_limit_reached"@,
            LemmyErrorType::CouldntCreateAudioCaptcha => "couldnt_create_audio_captcha"@,
            LemmyErrorType::Unknown => "unknown"@,
        }
    }

    /// The descriptive payload, for the variants that carry one.
    pub open spec fn message_spec(self) -> Option<Seq<char>> {
        match self {
            LemmyErrorType::PictrsResponseError(s) => Some(s@),
            LemmyErrorType::PictrsPurgeResponseError(s) => Some(s@),
            LemmyErrorType::RegistrationDenied(s) => Some(s@),
            _ => None,
        }
    }

    /// The position of a variant in the taxonomy's declared order; two
    /// values of different variants never share a position.
    pub open spec fn variant_index(self) -> int {
        match self {
            LemmyErrorType::ReportReasonRequired => 0,
            LemmyErrorType::ReportTooLong => 1,
            LemmyErrorType::NotAModerator => 2,
            LemmyErrorType::NotAnAdmin => 3,
            LemmyErrorType::CantBlockYourself => 4,
            LemmyErrorType::CantBlockAdmin => 5,
            LemmyErrorType::CouldntUpdateUser => 6,
            LemmyErrorType::PasswordsDoNotMatch => 7,
            LemmyErrorType::PasswordIncorrect => 8,
            LemmyErrorType::EmailNotVerified => 9,
            LemmyErrorType::EmailRequired => 10,
            LemmyErrorType::CouldntUpdateComment => 11,
            LemmyErrorType::CouldntUpdatePrivateMessage => 12,
            LemmyErrorType::CannotLeaveAdmin => 13,
            LemmyErrorType::NoLinesInHtml => 14,
            LemmyErrorType::SiteMetadataPageIsNotDoctypeHtml => 15,
            LemmyErrorType::PictrsResponseError(_) => 16,
            LemmyErrorType::PictrsPurgeResponseError(_) => 17,
            LemmyErrorType::ImageUrlMissingPathSegments => 18,
            LemmyErrorType::ImageUrlMissingLastPathSegment => 19,
            LemmyErrorType::PictrsApiKeyNotProvided => 20,
            LemmyErrorType::NoContentTypeHeader => 21,
            LemmyErrorType::NotAnImageType => 22,
            LemmyErrorType::NotAModOrAdmin => 23,
            LemmyErrorType::NoAdmins => 24,
            LemmyErrorType::NotTopAdmin => 25,
            LemmyErrorType::NotTopMod => 26,
            LemmyErrorType::NotLoggedIn => 27,
            LemmyErrorType::SiteBan => 28,
            LemmyErrorType::Deleted => 29,
            LemmyErrorType::BannedFromCommunity => 30,
            LemmyErrorType::CouldntFindCommunity => 31,
            LemmyErrorType::PersonIsBlocked => 32,
            LemmyErrorType::DownvotesAreDisabled => 33,
            LemmyErrorType::InstanceIsPrivate => 34,
            LemmyErrorType::InvalidPassword => 35,
            LemmyErrorType::SiteDescriptionLengthOverflow => 36,
            LemmyErrorType::HoneypotFailed => 37,
            LemmyErrorType::RegistrationApplicationIsPending => 38,
            LemmyErrorType::CantEnablePrivateInstanceAndFederationTogether => 39,
            LemmyErrorType::Locked => 40,
            LemmyErrorType::CouldntCreateComment => 41,
            LemmyErrorType::MaxCommentDepthReached => 42,
            LemmyErrorType::NoCommentEditAllowed => 43,
            LemmyErrorType::OnlyAdminsCanCreateCommunities => 44,
            LemmyErrorType::CommunityAlreadyExists => 45,
            LemmyErrorType::LanguageNotAllowed => 46,
            LemmyErrorType::OnlyModsCanPostInCommunity => 47,
            LemmyErrorType::CouldntUpdatePost => 48,
            LemmyErrorType::NoPostEditAllowed => 49,
            LemmyErrorType::CouldntFindPost => 50,
            LemmyErrorType::EditPrivateMessageNotAllowed => 51,
            LemmyErrorType::SiteAlreadyExists => 52,
            LemmyErrorType::ApplicationQuestionRequired => 53,
            LemmyErrorType::InvalidDefaultPostListingType => 54,
            LemmyErrorType::RegistrationClosed => 55,
            LemmyErrorType::RegistrationApplicationAnswerRequired => 56,
            LemmyErrorType::EmailAlreadyExists => 57,
            LemmyErrorType::FederationForbiddenByStrictAllowList => 58,
            LemmyErrorType::PersonIsBannedFromCommunity => 59,
            LemmyErrorType::ObjectIsNotPublic => 60,
            LemmyErrorType::InvalidCommunity => 61,
            LemmyErrorType::CannotCreatePostOrCommentInDeletedOrRemovedCommunity => 62,
            LemmyErrorType::CannotReceivePage => 63,
            LemmyErrorType::NewPostCannotBeLocked => 64,
            LemmyErrorType::OnlyLocalAdminCanRemoveCommunity => 65,
            LemmyErrorType::OnlyLocalAdminCanRestoreCommunity => 66,
            LemmyErrorType::NoIdGiven => 67,
            LemmyErrorType::CouldntFindUsernameOrEmail => 68,
            LemmyErrorType::InvalidQuery => 69,
            LemmyErrorType::ObjectNotLocal => 70,
            LemmyErrorType::PostIsLocked => 71,
            LemmyErrorType::PersonIsBannedFromSite => 72,
            LemmyErrorType::InvalidVoteValue => 73,
            LemmyErrorType::PageDoesNotSpecifyCreator => 74,
            LemmyErrorType::PageDoesNotSpecifyGroup => 75,
            LemmyErrorType::NoCommunityFoundInCc => 76,
            LemmyErrorType::NoEmailSetup => 77,
            LemmyErrorType::EmailSmtpServerNeedsAPort => 78,
            LemmyErrorType::MissingAnEmail => 79,
            LemmyErrorType::RateLimitError => 80,
            LemmyErrorType::InvalidName => 81,
            LemmyErrorType::InvalidDisplayName => 82,
            LemmyErrorType::InvalidMatrixId => 83,
            LemmyErrorType::InvalidPostTitle => 84,
            LemmyErrorType::InvalidBodyField => 85,
            LemmyErrorType::BioLengthOverflow => 86,
            LemmyErrorType::MissingTotpToken => 87,
            LemmyErrorType::IncorrectTotpToken => 88,
            LemmyErrorType::CouldntParseTotpSecret => 89,
            LemmyErrorType::CouldntLikeComment => 90,
            LemmyErrorType::CouldntSaveComment => 91,
            LemmyErrorType::CouldntCreateReport => 92,
            LemmyErrorType::CouldntResolveReport => 93,
            LemmyErrorType::CommunityModeratorAlreadyExists => 94,
            LemmyErrorType::CommunityUserAlreadyBanned => 95,
            LemmyErrorType::CommunityBlockAlreadyExists => 96,
            LemmyErrorType::CommunityFollowerAlreadyExists => 97,
            LemmyErrorType::CouldntUpdateCommunityHiddenStatus => 98,
            LemmyErrorType::PersonBlockAlreadyExists => 99,
            LemmyErrorType::UserAlreadyExists => 100,
            LemmyErrorType::TokenNotFound => 101,
            LemmyErrorType::CouldntLikePost => 102,
            LemmyErrorType::CouldntSavePost => 103,
            LemmyErrorType::CouldntMarkPostAsRead => 104,
            LemmyErrorType::CouldntUpdateCommunity => 105,
            LemmyErrorType::CouldntUpdateReplies => 106,
            LemmyErrorType::CouldntUpdatePersonMentions => 107,
            LemmyErrorType::PostTitleTooLong => 108,
            LemmyErrorType::CouldntCreatePost => 109,
            LemmyErrorType::CouldntCreatePrivateMessage => 110,
            LemmyErrorType::CouldntUpdatePrivate => 111,
            LemmyErrorType::SystemErrLogin => 112,
            LemmyErrorType::CouldntSetAllRegistrationsAccepted => 113,
            LemmyErrorType::CouldntSetAllEmailVerified => 114,
            LemmyErrorType::Banned => 115,
            LemmyErrorType::CouldntGetComments => 116,
            LemmyErrorType::CouldntGetPosts => 117,
            LemmyErrorType::InvalidUrl => 118,
            LemmyErrorType::EmailSendFailed => 119,
            LemmyErrorType::Slurs => 120,
            LemmyErrorType::CouldntGenerateTotp => 121,
            LemmyErrorType::CouldntFindObject => 122,
            LemmyErrorType::RegistrationDenied(_) => 123,
            LemmyErrorType::FederationDisabled => 124,
            LemmyErrorType::DomainBlocked => 125,
            LemmyErrorType::DomainNotInAllowList => 126,
            LemmyErrorType::FederationDisabledByStrictAllowList => 127,
            LemmyErrorType::SiteNameRequired => 128,
            LemmyErrorType::SiteNameLengthOverflow => 129,
            LemmyErrorType::PermissiveRegex => 130,
            LemmyErrorType::InvalidRegex => 131,
            LemmyErrorType::CaptchaIncorrect => 132,
            LemmyErrorType::PasswordResetLimitReached => 133,
            LemmyErrorType::CouldntCreateAudioCaptcha => 134,
            LemmyErrorType::Unknown => 135,
        }
    }

    /// The wire tag of this variant.
    pub fn tag(&self) -> (r: &'static str)
        ensures
            r@ == self.tag_spec(),
    {
        match self {
            LemmyErrorType::ReportReasonRequired => "report_reason_required",
            LemmyErrorType::ReportTooLong => "report_too_long",
            LemmyErrorType::NotAModerator => "not_a_moderator",
            LemmyErrorType::NotAnAdmin => "not_an_admin",
            LemmyErrorType::CantBlockYourself => "cant_block_yourself",
            LemmyErrorType::CantBlockAdmin => "cant_block_admin",
            LemmyErrorType::CouldntUpdateUser => "couldnt_update_user",
            LemmyErrorType::PasswordsDoNotMatch => "passwords_do_not_match",
            LemmyErrorType::PasswordIncorrect => "password_incorrect",
            LemmyErrorType::EmailNotVerified => "email_not_verified",
            LemmyErrorType::EmailRequired => "email_required",
            LemmyErrorType::CouldntUpdateComment => "couldnt_update_comment",
            LemmyErrorType::CouldntUpdatePrivateMessage => "couldnt_update_private_message",
            LemmyErrorType::CannotLeaveAdmin => "cannot_leave_admin",
            LemmyErrorType::NoLinesInHtml => "no_lines_in_html",
            LemmyErrorType::SiteMetadataPageIsNotDoctypeHtml => "site_metadata_page_is_not_doctype_html",
            LemmyErrorType::PictrsResponseError(_) => "pictrs_response_error",
            LemmyErrorType::PictrsPurgeResponseError(_) => "pictrs_purge_response_error",
            LemmyErrorType::ImageUrlMissingPathSegments => "image_url_missing_path_segments",
            LemmyErrorType::ImageUrlMissingLastPathSegment => "image_url_missing_last_path_segment",
            LemmyErrorType::PictrsApiKeyNotProvided => "pictrs_api_key_not_provided",
            LemmyErrorType::NoContentTypeHeader => "no_content_type_header",
            LemmyErrorType::NotAnImageType => "not_an_image_type",
            LemmyErrorType::NotAModOrAdmin => "not_a_mod_or_admin",
            LemmyErrorType::NoAdmins => "no_admins",
            LemmyErrorType::NotTopAdmin => "not_top_admin",
            LemmyErrorType::NotTopMod => "not_top_mod",
            LemmyErrorType::NotLoggedIn => "not_logged_in",
            LemmyErrorType::SiteBan => "site_ban",
            LemmyErrorType::Deleted => "deleted",
            LemmyErrorType::BannedFromCommunity => "banned_from_community",
            LemmyErrorType::CouldntFindCommunity => "couldnt_find_community",
            LemmyErrorType::PersonIsBlocked => "person_is_blocked",
            LemmyErrorType::DownvotesAreDisabled => "downvotes_are_disabled",
            LemmyErrorType::InstanceIsPrivate => "instance_is_private",
            LemmyErrorType::InvalidPassword => "invalid_password",
            LemmyErrorType::SiteDescriptionLengthOverflow => "site_description_length_overflow",
            LemmyErrorType::HoneypotFailed => "honeypot_failed",
            LemmyErrorType::RegistrationApplicationIsPending => "registration_application_is_pending",
            LemmyErrorType::CantEnablePrivateInstanceAndFederationTogether => "cant_enable_private_instance_and_federation_together",
            LemmyErrorType::Locked => "locked",
            LemmyErrorType::CouldntCreateComment => "couldnt_create_comment",
            LemmyErrorType::MaxCommentDepthReached => "max_comment_depth_reached",
            LemmyErrorType::NoCommentEditAllowed => "no_comment_edit_allowed",
            LemmyErrorType::OnlyAdminsCanCreateCommunities => "only_admins_can_create_communities",
            LemmyErrorType::CommunityAlreadyExists => "community_already_exists",
            LemmyErrorType::LanguageNotAllowed => "language_not_allowed",
            LemmyErrorType::OnlyModsCanPostInCommunity => "only_mods_can_post_in_community",
            LemmyErrorType::CouldntUpdatePost => "couldnt_update_post",
            LemmyErrorType::NoPostEditAllowed => "no_post_edit_allowed",
            LemmyErrorType::CouldntFindPost => "couldnt_find_post",
            LemmyErrorType::EditPrivateMessageNotAllowed => "edit_private_message_not_allowed",
            LemmyErrorType::SiteAlreadyExists => "site_already_exists",
            LemmyErrorType::ApplicationQuestionRequired => "application_question_required",
            LemmyErrorType::InvalidDefaultPostListingType => "invalid_default_post_listing_type",
            LemmyErrorType::RegistrationClosed => "registration_closed",
            LemmyErrorType::RegistrationApplicationAnswerRequired => "registration_application_answer_required",
            LemmyErrorType::EmailAlreadyExists => "email_already_exists",
            LemmyErrorType::FederationForbiddenByStrictAllowList => "federation_forbidden_by_strict_allow_list",
            LemmyErrorType::PersonIsBannedFromCommunity => "person_is_banned_from_community",
            LemmyErrorType::ObjectIsNotPublic => "object_is_not_public",
            LemmyErrorType::InvalidCommunity => "invalid_community",
            LemmyErrorType::CannotCreatePostOrCommentInDeletedOrRemovedCommunity => "cannot_create_post_or_comment_in_deleted_or_removed_community",
            LemmyErrorType::CannotReceivePage => "cannot_receive_page",
            LemmyErrorType::NewPostCannotBeLocked => "new_post_cannot_be_locked",
            LemmyErrorType::OnlyLocalAdminCanRemoveCommunity => "only_local_admin_can_remove_community",
            LemmyErrorType::OnlyLocalAdminCanRestoreCommunity => "only_local_admin_can_restore_community",
            LemmyErrorType::NoIdGiven => "no_id_given",
            LemmyErrorType::CouldntFindUsernameOrEmail => "couldnt_find_username_or_email",
            LemmyErrorType::InvalidQuery => "invalid_query",
            LemmyErrorType::ObjectNotLocal => "object_not_local",
            LemmyErrorType::PostIsLocked => "post_is_locked",
            LemmyErrorType::PersonIsBannedFromSite => "person_is_banned_from_site",
            LemmyErrorType::InvalidVoteValue => "invalid_vote_value",
            LemmyErrorType::PageDoesNotSpecifyCreator => "page_does_not_specify_creator",
            LemmyErrorType::PageDoesNotSpecifyGroup => "page_does_not_specify_group",
            LemmyErrorType::NoCommunityFoundInCc => "no_community_found_in_cc",
            LemmyErrorType::NoEmailSetup => "no_email_setup",
            LemmyErrorType::EmailSmtpServerNeedsAPort => "email_smtp_server_needs_a_port",
            LemmyErrorType::MissingAnEmail => "missing_an_email",
            LemmyErrorType::RateLimitError => "rate_limit_error",
            LemmyErrorType::InvalidName => "invalid_name",
            LemmyErrorType::InvalidDisplayName => "invalid_display_name",
            LemmyErrorType::InvalidMatrixId => "invalid_matrix_id",
            LemmyErrorType::InvalidPostTitle => "invalid_post_title",
            LemmyErrorType::InvalidBodyField => "invalid_body_field",
            LemmyErrorType::BioLengthOverflow => "bio_length_overflow",
            LemmyErrorType::MissingTotpToken => "missing_totp_token",
            LemmyErrorType::IncorrectTotpToken => "incorrect_totp_token",
            LemmyErrorType::CouldntParseTotpSecret => "couldnt_parse_totp_secret",
            LemmyErrorType::CouldntLikeComment => "couldnt_like_comment",
            LemmyErrorType::CouldntSaveComment => "couldnt_save_comment",
            LemmyErrorType::CouldntCreateReport => "couldnt_create_report",
            LemmyErrorType::CouldntResolveReport => "couldnt_resolve_report",
            LemmyErrorType::CommunityModeratorAlreadyExists => "community_moderator_already_exists",
            LemmyErrorType::CommunityUserAlreadyBanned => "community_user_already_banned",
            LemmyErrorType::CommunityBlockAlreadyExists => "community_block_already_exists",
            LemmyErrorType::CommunityFollowerAlreadyExists => "community_follower_already_exists",
            LemmyErrorType::CouldntUpdateCommunityHiddenStatus => "couldnt_update_community_hidden_status",
            LemmyErrorType::PersonBlockAlreadyExists => "person_block_already_exists",
            LemmyErrorType::UserAlreadyExists => "user_already_exists",
            LemmyErrorType::TokenNotFound => "token_not_found",
            LemmyErrorType::CouldntLikePost => "couldnt_like_post",
            LemmyErrorType::CouldntSavePost => "couldnt_save_post",
            LemmyErrorType::CouldntMarkPostAsRead => "couldnt_mark_post_as_read",
            LemmyErrorType::CouldntUpdateCommunity => "couldnt_update_community",
            LemmyErrorType::CouldntUpdateReplies => "couldnt_update_replies",
            LemmyErrorType::CouldntUpdatePersonMentions => "couldnt_update_person_mentions",
            LemmyErrorType::PostTitleTooLong => "post_title_too_long",
            LemmyErrorType::CouldntCreatePost => "couldnt_create_post",
            LemmyErrorType::CouldntCreatePrivateMessage => "couldnt_create_private_message",
            LemmyErrorType::CouldntUpdatePrivate => "couldnt_update_private",
            LemmyErrorType::SystemErrLogin => "system_err_login",
            LemmyErrorType::CouldntSetAllRegistrationsAccepted => "couldnt_set_all_registrations_accepted",
            LemmyErrorType::CouldntSetAllEmailVerified => "couldnt_set_all_email_verified",
            LemmyErrorType::Banned => "banned",
            LemmyErrorType::CouldntGetComments => "couldnt_get_comments",
            LemmyErrorType::CouldntGetPosts => "couldnt_get_posts",
            LemmyErrorType::InvalidUrl => "invalid_url",
            LemmyErrorType::EmailSendFailed => "email_send_failed",
            LemmyErrorType::Slurs => "slurs",
            LemmyErrorType::CouldntGenerateTotp => "couldnt_generate_totp",
            LemmyErrorType::CouldntFindObject => "couldnt_find_object",
            LemmyErrorType::RegistrationDenied(_) => "registration_denied",
            LemmyErrorType::FederationDisabled => "federation_disabled",
            LemmyErrorType::DomainBlocked => "domain_blocked",
            LemmyErrorType::DomainNotInAllowList => "domain_not_in_allow_list",
            LemmyErrorType::FederationDisabledByStrictAllowList => "federation_disabled_by_strict_allow_list",
            LemmyErrorType::SiteNameRequired => "site_name_required",
            LemmyErrorType::SiteNameLengthOverflow => "site_name_length_overflow",
            LemmyErrorType::PermissiveRegex => "permissive_regex",
            LemmyErrorType::InvalidRegex => "invalid_regex",
            LemmyErrorType::CaptchaIncorrect => "captcha_incorrect",
            LemmyErrorType::PasswordResetLimitReached => "password_reset_limit_reached",
            LemmyErrorType::CouldntCreateAudioCaptcha => "couldnt_create_audio_captcha",
            LemmyErrorType::Unknown => "unknown",
        }
    }

    /// The payload of this variant, where it carries one.
    pub fn message(&self) -> (r: Option<&String>)
        ensures
            match r {
                Some(s) => self.message_spec() == Some(s@),
                None => self.message_spec() is None,
            },
    {
        match self {
            LemmyErrorType::PictrsResponseError(s) => Some(s),
            LemmyErrorType::PictrsPurgeResponseError(s) => Some(s),
            LemmyErrorType::RegistrationDenied(s) => Some(s),
            _ => None,
        }
    }

    /// The variant standing at a given position of the declared order, with
    /// an empty payload for the payload-carrying variants.
    pub fn variant_at(i: usize) -> (r: LemmyErrorType)
        requires
            i < VARIANT_COUNT,
        ensures
            r.variant_index() == i as int,
            r.message_spec() is Some ==> r.message_spec() == Some(Seq::<char>::empty()),
    {
        match i {
            0 => LemmyErrorType::ReportReasonRequired,
            1 => LemmyErrorType::ReportTooLong,
            2 => LemmyErrorType::NotAModerator,
            3 => LemmyErrorType::NotAnAdmin,
            4 => LemmyErrorType::CantBlockYourself,
            5 => LemmyErrorType::CantBlockAdmin,
            6 => LemmyErrorType::CouldntUpdateUser,
            7 => LemmyErrorType::PasswordsDoNotMatch,
            8 => LemmyErrorType::PasswordIncorrect,
            9 => LemmyErrorType::EmailNotVerified,
            10 => LemmyErrorType::EmailRequired,
            11 => LemmyErrorType::CouldntUpdateComment,
            12 => LemmyErrorType::CouldntUpdatePrivateMessage,
            13 => LemmyErrorType::CannotLeaveAdmin,
            14 => LemmyErrorType::NoLinesInHtml,
            15 => LemmyErrorType::SiteMetadataPageIsNotDoctypeHtml,
            16 => LemmyErrorType::PictrsResponseError(String::new()),
            17 => LemmyErrorType::PictrsPurgeResponseError(String::new()),
            18 => LemmyErrorType::ImageUrlMissingPathSegments,
            19 => LemmyErrorType::ImageUrlMissingLastPathSegment,
            20 => LemmyErrorType::PictrsApiKeyNotProvided,
            21 => LemmyErrorType::NoContentTypeHeader,
            22 => LemmyErrorType::NotAnImageType,
            23 => LemmyErrorType::NotAModOrAdmin,
            24 => LemmyErrorType::NoAdmins,
            25 => LemmyErrorType::NotTopAdmin,
            26 => LemmyErrorType::NotTopMod,
            27 => LemmyErrorType::NotLoggedIn,
            28 => LemmyErrorType::SiteBan,
            29 => LemmyErrorType::Deleted,
            30 => LemmyErrorType::BannedFromCommunity,
            31 => LemmyErrorType::CouldntFindCommunity,
            32 => LemmyErrorType::PersonIsBlocked,
            33 => LemmyErrorType::DownvotesAreDisabled,
            34 => LemmyErrorType::InstanceIsPrivate,
            35 => LemmyErrorType::InvalidPassword,
            36 => LemmyErrorType::SiteDescriptionLengthOverflow,
            37 => LemmyErrorType::HoneypotFailed,
            38 => LemmyErrorType::RegistrationApplicationIsPending,
            39 => LemmyErrorType::CantEnablePrivateInstanceAndFederationTogether,
            40 => LemmyErrorType::Locked,
            41 => LemmyErrorType::CouldntCreateComment,
            42 => LemmyErrorType::MaxCommentDepthReached,
            43 => LemmyErrorType::NoCommentEditAllowed,
            44 => LemmyErrorType::OnlyAdminsCanCreateCommunities,
            45 => LemmyErrorType::CommunityAlreadyExists,
            46 => LemmyErrorType::LanguageNotAllowed,
            47 => LemmyErrorType::OnlyModsCanPostInCommunity,
            48 => LemmyErrorType::CouldntUpdatePost,
            49 => LemmyErrorType::NoPostEditAllowed,
            50 => LemmyErrorType::CouldntFindPost,
            51 => LemmyErrorType::EditPrivateMessageNotAllowed,
            52 => LemmyErrorType::SiteAlreadyExists,
            53 => LemmyErrorType::ApplicationQuestionRequired,
            54 => LemmyErrorType::InvalidDefaultPostListingType,
            55 => LemmyErrorType::RegistrationClosed,
            56 => LemmyErrorType::RegistrationApplicationAnswerRequired,
            57 => LemmyErrorType::EmailAlreadyExists,
            58 => LemmyErrorType::FederationForbiddenByStrictAllowList,
            59 => LemmyErrorType::PersonIsBannedFromCommunity,
            60 => LemmyErrorType::ObjectIsNotPublic,
            61 => LemmyErrorType::InvalidCommunity,
            62 => LemmyErrorType::CannotCreatePostOrCommentInDeletedOrRemovedCommunity,
            63 => LemmyErrorType::CannotReceivePage,
            64 => LemmyErrorType::NewPostCannotBeLocked,
            65 => LemmyErrorType::OnlyLocalAdminCanRemoveCommunity,
            66 => LemmyErrorType::OnlyLocalAdminCanRestoreCommunity,
            67 => LemmyErrorType::NoIdGiven,
            68 => LemmyErrorType::CouldntFindUsernameOrEmail,
            69 => LemmyErrorType::InvalidQuery,
            70 => LemmyErrorType::ObjectNotLocal,
            71 => LemmyErrorType::PostIsLocked,
            72 => LemmyErrorType::PersonIsBannedFromSite,
            73 => LemmyErrorType::InvalidVoteValue,
            74 => LemmyErrorType::PageDoesNotSpecifyCreator,
            75 => LemmyErrorType::PageDoesNotSpecifyGroup,
            76 => LemmyErrorType::NoCommunityFoundInCc,
            77 => LemmyErrorType::NoEmailSetup,
            78 => LemmyErrorType::EmailSmtpServerNeedsAPort,
            79 => LemmyErrorType::MissingAnEmail,
            80 => LemmyErrorType::RateLimitError,
            81 => LemmyErrorType::InvalidName,
            82 => LemmyErrorType::InvalidDisplayName,
            83 => LemmyErrorType::InvalidMatrixId,
            84 => LemmyErrorType::InvalidPostTitle,
            85 => LemmyErrorType::InvalidBodyField,
            86 => LemmyErrorType::BioLengthOverflow,
            87 => LemmyErrorType::MissingTotpToken,
            88 => LemmyErrorType::IncorrectTotpToken,
            89 => LemmyErrorType::CouldntParseTotpSecret,
            90 => LemmyErrorType::CouldntLikeComment,
            91 => LemmyErrorType::CouldntSaveComment,
            92 => LemmyErrorType::CouldntCreateReport,
            93 => LemmyErrorType::CouldntResolveReport,
            94 => LemmyErrorType::CommunityModeratorAlreadyExists,
            95 => LemmyErrorType::CommunityUserAlreadyBanned,
            96 => LemmyErrorType::CommunityBlockAlreadyExists,
            97 => LemmyErrorType::CommunityFollowerAlreadyExists,
            98 => LemmyErrorType::CouldntUpdateCommunityHiddenStatus,
            99 => LemmyErrorType::PersonBlockAlreadyExists,
            100 => LemmyErrorType::UserAlreadyExists,
            101 => LemmyErrorType::TokenNotFound,
            102 => LemmyErrorType::CouldntLikePost,
            103 => LemmyErrorType::CouldntSavePost,
            104 => LemmyErrorType::CouldntMarkPostAsRead,
            105 => LemmyErrorType::CouldntUpdateCommunity,
            106 => LemmyErrorType::CouldntUpdateReplies,
            107 => LemmyErrorType::CouldntUpdatePersonMentions,
            108 => LemmyErrorType::PostTitleTooLong,
            109 => LemmyErrorType::CouldntCreatePost,
            110 => LemmyErrorType::CouldntCreatePrivateMessage,
            111 => LemmyErrorType::CouldntUpdatePrivate,
            112 => LemmyErrorType::SystemErrLogin,
            113 => LemmyErrorType::CouldntSetAllRegistrationsAccepted,
            114 => LemmyErrorType::CouldntSetAllEmailVerified,
            115 => LemmyErrorType::Banned,
            116 => LemmyErrorType::CouldntGetComments,
            117 => LemmyErrorType::CouldntGetPosts,
            118 => LemmyErrorType::InvalidUrl,
            119 => LemmyErrorType::EmailSendFailed,
            120 => LemmyErrorType::Slurs,
            121 => LemmyErrorType::CouldntGenerateTotp,
            122 => LemmyErrorType::CouldntFindObject,
            123 => LemmyErrorType::RegistrationDenied(String::new()),
            124 => LemmyErrorType::FederationDisabled,
            125 => LemmyErrorType::DomainBlocked,
            126 => LemmyErrorType::DomainNotInAllowList,
            127 => LemmyErrorType::FederationDisabledByStrictAllowList,
            128 => LemmyErrorType::SiteNameRequired,
            129 => LemmyErrorType::SiteNameLengthOverflow,
            130 => LemmyErrorType::PermissiveRegex,
            131 => LemmyErrorType::InvalidRegex,
            132 => LemmyErrorType::CaptchaIncorrect,
            133 => LemmyErrorType::PasswordResetLimitReached,
            134 => LemmyErrorType::CouldntCreateAudioCaptcha,
            _ => LemmyErrorType::Unknown,
        }
    }

    /// The serialized wire body of a kind: `{"error":"<tag>"}`, with a
    /// `message` key added, after the tag, for the payload variants only.
    /// Key names and key order never vary.
    pub open spec fn body_spec(self) -> Seq<char> {
        match self.message_spec() {
            Option::None => "{\"error\":\""@ + self.tag_spec() + "\"}"@,
            Option::Some(m) => "{\"error\":\""@ + self.tag_spec() + "\",\"message\":\""@
                + crate::json::escape_seq(m) + "\"}"@,
        }
    }

    /// Render the wire body of this kind.
    pub fn to_json_body(&self) -> (r: String)
        ensures
            r@ == self.body_spec(),
    {
        let mut out = String::from_str("{\"error\":\"");
        out.append(self.tag());
        match self.message() {
            Option::Some(m) => {
                out.append("\",\"message\":\"");
                let escaped = crate::json::escape_json(m.as_str());
                out.append(escaped.as_str());
                out.append("\"}");
            },
            Option::None => {
                out.append("\"}");
            },
        }
        proof {
            assert(out@ =~= self.body_spec());
        }
        out
    }

    /// Every variant of the taxonomy, once each, in the declared stable
    /// order: position j holds the variant whose index is j, so the
    /// enumeration is duplicate-free; its length is the declared count, so it
    /// is non-empty.
    pub fn all_variants() -> (r: Vec<LemmyErrorType>)
        ensures
            r@.len() == VARIANT_COUNT,
            forall|j: int| 0 <= j < r@.len() ==> (#[trigger] r@[j].variant_index()) == j,
            forall|j: int| 0 <= j < r@.len()
                ==> (#[trigger] r@[j].message_spec()) is Some
                ==> r@[j].message_spec() == Some(Seq::<char>::empty()),
    {
        let mut v: Vec<LemmyErrorType> = Vec::new();
        let mut i: usize = 0;
        while i < VARIANT_COUNT
            invariant
                i <= VARIANT_COUNT,
                v@.len() == i as int,
                forall|j: int| 0 <= j < i as int ==> (#[trigger] v@[j].variant_index()) == j,
                forall|j: int| 0 <= j < i as int
                    ==> (#[trigger] v@[j].message_spec()) is Some
                    ==> v@[j].message_spec() == Some(Seq::<char>::empty()),
            decreases VARIANT_COUNT - i,
        {
            v.push(Self::variant_at(i));
            i += 1;
        }
        v
    }
}

} // verus!
