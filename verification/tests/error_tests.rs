//! Tests of the error container, the classifier, and the wire body.

use lemmy_core::error::{Cause, LemmyError, ResponseBody, StatusCode};
use lemmy_core::kind::{LemmyErrorType, VARIANT_COUNT};

fn json_body(e: &LemmyError) -> String {
    match e.error_response().body {
        ResponseBody::Json(s) => s,
        ResponseBody::PlainText(_) => panic!("expected a json body"),
    }
}

#[test]
fn deserializes_no_message() {
    let err = LemmyError::from_kind(LemmyErrorType::Banned);
    let json = json_body(&err);
    assert_eq!(&json, "{\"error\":\"banned\"}")
}

#[test]
fn deserializes_with_message() {
    let reg_denied = LemmyErrorType::RegistrationDenied(String::from("reason"));
    let err = LemmyError::from_kind(reg_denied);
    let json = json_body(&err);
    assert_eq!(
        &json,
        "{\"error\":\"registration_denied\",\"message\":\"reason\"}"
    )
}

#[test]
fn every_no_payload_variant_serializes_to_bare_tag() {
    for kind in LemmyErrorType::all_variants() {
        if kind.message().is_none() {
            let tag = kind.tag();
            let err = LemmyError::from_error_and_type(
                Cause::new(String::from("underlying failure")),
                kind,
            );
            let json = json_body(&err);
            assert_eq!(json, format!("{{\"error\":\"{tag}\"}}"));
            assert!(!json.contains("\"message\":"));
        }
    }
}

#[test]
fn payload_variants_serialize_with_message_key() {
    let cases = [
        (
            LemmyErrorType::PictrsResponseError(String::from("image host down")),
            "{\"error\":\"pictrs_response_error\",\"message\":\"image host down\"}",
        ),
        (
            LemmyErrorType::PictrsPurgeResponseError(String::from("purge refused")),
            "{\"error\":\"pictrs_purge_response_error\",\"message\":\"purge refused\"}",
        ),
        (
            LemmyErrorType::RegistrationDenied(String::from("reason")),
            "{\"error\":\"registration_denied\",\"message\":\"reason\"}",
        ),
    ];
    for (kind, expected) in cases {
        let err = LemmyError::from_error_and_type(Cause::new(String::from("boom")), kind);
        assert_eq!(json_body(&err), expected);
    }
}

#[test]
fn payload_text_is_json_escaped() {
    let kind = LemmyErrorType::RegistrationDenied(String::from("a\"b\\c\nd\u{1f}e\tf"));
    let err = LemmyError::from_kind(kind);
    assert_eq!(
        json_body(&err),
        "{\"error\":\"registration_denied\",\"message\":\"a\\\"b\\\\c\\nd\\u001fe\\tf\"}"
    );
}

#[test]
fn not_found_marker_classifies_to_not_found_whatever_the_kind() {
    let bare = LemmyError::wrap_unclassified(Cause::record_not_found(String::from("gone")));
    assert_eq!(bare.status_code(), StatusCode::NotFound);
    assert_eq!(bare.status_code().code(), 404);

    let classified = LemmyError::from_error_and_type(
        Cause::record_not_found(String::from("gone")),
        LemmyErrorType::CouldntFindCommunity,
    );
    assert_eq!(classified.status_code(), StatusCode::NotFound);

    let reclassified = classified.with_type(LemmyErrorType::Banned);
    assert_eq!(reclassified.status_code(), StatusCode::NotFound);
}

#[test]
fn other_causes_classify_to_bad_request_whatever_the_kind() {
    let bare = LemmyError::wrap_unclassified(Cause::new(String::from("io failure")));
    assert_eq!(bare.status_code(), StatusCode::BadRequest);
    assert_eq!(bare.status_code().code(), 400);

    let classified = LemmyError::from_error_and_type(
        Cause::new(String::from("io failure")),
        LemmyErrorType::CouldntFindCommunity,
    );
    assert_eq!(classified.status_code(), StatusCode::BadRequest);

    let from_kind = LemmyError::from_kind(LemmyErrorType::NotAnAdmin);
    assert_eq!(from_kind.status_code(), StatusCode::BadRequest);
}

#[test]
fn with_type_twice_keeps_only_the_last_kind() {
    let original = LemmyError::wrap_unclassified(Cause::new(String::from("boom")));
    let original_context = original.context.clone();

    let once = original.with_type(LemmyErrorType::NotAnAdmin);
    let twice = once.with_type(LemmyErrorType::Banned);

    assert_eq!(json_body(&twice), "{\"error\":\"banned\"}");
    assert_eq!(twice.inner.text, "boom");
    assert!(!twice.inner.not_found);
    assert_eq!(twice.context, original_context);
}

#[test]
fn unclassified_container_degrades_to_plain_text_body() {
    let err = LemmyError::wrap_unclassified(Cause::new(String::from("io failure")));
    let response = err.error_response();
    assert_eq!(response.status, StatusCode::BadRequest);
    match response.body {
        ResponseBody::PlainText(s) => assert_eq!(s, "io failure"),
        ResponseBody::Json(_) => panic!("the unclassified path must not yield json"),
    }
}

#[test]
fn enumeration_is_stable_complete_and_duplicate_free() {
    let variants = LemmyErrorType::all_variants();
    assert_eq!(variants.len(), VARIANT_COUNT);
    assert!(!variants.is_empty());

    let tags: Vec<&str> = variants.iter().map(|v| v.tag()).collect();
    let mut seen = std::collections::HashSet::new();
    for tag in &tags {
        assert!(seen.insert(*tag), "duplicate tag {tag}");
    }

    let again: Vec<&str> = LemmyErrorType::all_variants().iter().map(|v| v.tag()).collect();
    assert_eq!(tags, again);
}

#[test]
fn display_text_renders_kind_cause_and_context() {
    let err = LemmyError::from_error_and_type(
        Cause::new(String::from("boom")),
        LemmyErrorType::NotAnAdmin,
    );
    let shown = err.display_text();
    assert!(shown.starts_with("not_an_admin: boom\n"));
    assert_eq!(shown, format!("not_an_admin: boom\n{}", err.context));

    let unclassified = LemmyError::wrap_unclassified(Cause::new(String::from("boom")));
    assert!(unclassified.display_text().starts_with("boom\n"));
}
