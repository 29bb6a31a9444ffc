//! The unified error container: an optional taxonomy kind, the underlying
//! cause, and a diagnostic context snapshot captured once at construction.

use vstd::prelude::*;
use vstd::string::*;

verus! {

/// The result type fallible operations of this core return.
pub type LemmyResult<T> = Result<T, LemmyError>;

/// The underlying failure a container wraps, reduced to what the core reads
/// of it: the text a diagnostic rendering shows, and whether the persistence
/// layer's "record not found" marker is present on it.
#[derive(Debug)]
pub struct Cause {
    pub text: String,
    pub not_found: bool,
}

impl Cause {
    /// A cause with the given diagnostic text and no marker.
    pub fn new(text: String) -> (r: Cause)
        ensures
            r.text@ == text@,
            !r.not_found,
    {
        Cause { text, not_found: false }
    }

    /// The persistence layer's "record not found" failure: the one cause
    /// that carries the marker the classifier asks about.
    pub fn record_not_found(text: String) -> (r: Cause)
        ensures
            r.text@ == text@,
            r.not_found,
    {
        Cause { text, not_found: true }
    }
}

/// Relies on tracing_error::SpanTrace::capture: a snapshot of the current
/// span context, rendered to text. What the snapshot holds depends on the
/// active tracing subscriber, so nothing is stated of the result.
#[verifier::external_body]
fn capture_context() -> (r: String) {
    let trace = tracing_error::SpanTrace::capture();
    format!("{trace}")
}

/// The unified error container. `context` is set exactly once, at
/// construction, and never recomputed; `inner` is always present; only
/// `error_type` may be replaced after construction, via `with_type`.
#[derive(Debug)]
pub struct LemmyError {
    pub error_type: Option<crate::kind::LemmyErrorType>,
    pub inner: Cause,
    pub context: String,
}

impl LemmyError {
    /// Explicit classified construction: wrap a cause under a known kind,
    /// capturing the diagnostic context now.
    pub fn from_error_and_type(error: Cause, error_type: crate::kind::LemmyErrorType) -> (r: LemmyError)
        ensures
            r.error_type == Some(error_type),
            r.inner == error,
    {
        LemmyError { error_type: Some(error_type), inner: error, context: capture_context() }
    }

    /// The blanket, unclassified construction path: the only way a container
    /// comes to hold no kind.
    pub fn wrap_unclassified(error: Cause) -> (r: LemmyError)
        ensures
            r.error_type is None,
            r.inner == error,
    {
        LemmyError { error_type: None, inner: error, context: capture_context() }
    }

    /// Synthesize a container from a kind alone: the kind's display text
    /// becomes its own cause, which never carries the not-found marker.
    pub fn from_kind(error_type: crate::kind::LemmyErrorType) -> (r: LemmyError)
        ensures
            r.error_type == Some(error_type),
            r.inner.text@ == error_type.tag_spec(),
            !r.inner.not_found,
    {
        let text = String::from_str(error_type.tag());
        LemmyError {
            error_type: Some(error_type),
            inner: Cause { text, not_found: false },
            context: capture_context(),
        }
    }

    /// Replace the kind, carrying cause and context over unchanged. This is
    /// the only permitted post-construction modification.
    pub fn with_type(self, error_type: crate::kind::LemmyErrorType) -> (r: LemmyError)
        ensures
            r == with_type_spec(self, error_type),
    {
        LemmyError { error_type: Some(error_type), ..self }
    }
}

/// The two transport statuses the classifier distinguishes: a failed
/// identity lookup, and everything else. Anything finer a client must read
/// from the body's tag, not from the status.
#[derive(Debug, Clone, Copy, PartialEq, Eq, Structural)]
pub enum StatusCode {
    NotFound,
    BadRequest,
}

impl StatusCode {
    /// The numeric HTTP-equivalent of each status.
    pub open spec fn code_spec(self) -> u16 {
        match self {
            StatusCode::NotFound => 404,
            StatusCode::BadRequest => 400,
        }
    }

    /// The numeric HTTP-equivalent of this status.
    pub fn code(&self) -> (r: u16)
        ensures
            r == self.code_spec(),
    {
        match self {
            StatusCode::NotFound => 404,
            StatusCode::BadRequest => 400,
        }
    }
}

/// A response body: the serialized kind where the container holds one, else
/// the degraded plain-text rendering of the cause.
#[derive(Debug)]
pub enum ResponseBody {
    Json(String),
    PlainText(String),
}

/// What the responder hands the transport boundary: a coarse status and the
/// client-facing body. The diagnostic context never appears here.
#[derive(Debug)]
pub struct ErrorResponse {
    pub status: StatusCode,
    pub body: ResponseBody,
}

impl LemmyError {
    /// The status a container classifies to: not-found exactly when the
    /// cause carries the persistence layer's marker, whatever kind is set.
    pub open spec fn status_spec(self) -> StatusCode {
        if self.inner.not_found {
            StatusCode::NotFound
        } else {
            StatusCode::BadRequest
        }
    }

    /// The text of the body a container yields: the kind's wire form where
    /// one is present, else the cause's message.
    pub open spec fn body_text_spec(self) -> Seq<char> {
        match self.error_type {
            Some(k) => k.body_spec(),
            None => self.inner.text@,
        }
    }

    /// Classify this container to its transport status.
    pub fn status_code(&self) -> (r: StatusCode)
        ensures
            r == self.status_spec(),
    {
        if self.inner.not_found {
            StatusCode::NotFound
        } else {
            StatusCode::BadRequest
        }
    }

    /// Produce the transport response: the classified status, and a JSON
    /// body for a classified container or a plain-text body for an
    /// unclassified one.
    pub fn error_response(&self) -> (r: ErrorResponse)
        ensures
            r.status == self.status_spec(),
            match r.body {
                ResponseBody::Json(s) => self.error_type is Some && s@ == self.body_text_spec(),
                ResponseBody::PlainText(s) => self.error_type is None && s@
                    == self.body_text_spec(),
            },
    {
        let status = self.status_code();
        match &self.error_type {
            Some(k) => ErrorResponse { status, body: ResponseBody::Json(k.to_json_body()) },
            None => ErrorResponse {
                status,
                body: ResponseBody::PlainText(self.inner.text.clone()),
            },
        }
    }

    /// The combined operator-facing rendering: the kind's tag and a colon
    /// where a kind is present, then the cause's diagnostic text, then the
    /// captured context on a new line.
    pub open spec fn display_spec(self) -> Seq<char> {
        match self.error_type {
            Some(k) => k.tag_spec() + ": "@ + self.inner.text@ + "\n"@ + self.context@,
            None => self.inner.text@ + "\n"@ + self.context@,
        }
    }

    /// Render the operator-facing text. This is for logs and traces, never
    /// for a client response.
    pub fn display_text(&self) -> (r: String)
        ensures
            r@ == self.display_spec(),
    {
        let mut out = String::new();
        match &self.error_type {
            Some(k) => {
                out.append(k.tag());
                out.append(": ");
            },
            None => {},
        }
        out.append(self.inner.text.as_str());
        out.append("\n");
        out.append(self.context.as_str());
        proof {
            assert(out@ =~= self.display_spec());
        }
        out
    }
}

/// What `with_type` returns: the same container with its kind replaced.
pub open spec fn with_type_spec(e: LemmyError, error_type: crate::kind::LemmyErrorType) -> LemmyError {
    LemmyError { error_type: Some(error_type), ..e }
}

/// Replacing the kind twice keeps only the last kind, so the container
/// serializes with the last kind alone; the cause and the context of the
/// original container ride through both steps unchanged.
pub proof fn lemma_with_type_twice(e: LemmyError, k1: crate::kind::LemmyErrorType, k2: crate::kind::LemmyErrorType)
    ensures
        with_type_spec(with_type_spec(e, k1), k2).error_type == Some(k2),
        with_type_spec(with_type_spec(e, k1), k2).body_text_spec() == k2.body_spec(),
        with_type_spec(with_type_spec(e, k1), k2).inner == e.inner,
        with_type_spec(with_type_spec(e, k1), k2).context == e.context,
{
}

/// A container whose cause carries the not-found marker always classifies
/// to the not-found status, whatever kind is set on it.
pub proof fn lemma_not_found_status(e: LemmyError)
    requires
        e.inner.not_found,
    ensures
        e.status_spec() == StatusCode::NotFound,
{
}

/// A container whose cause does not carry the not-found marker always
/// classifies to the bad-request status, whatever kind is set on it.
pub proof fn lemma_bad_request_status(e: LemmyError)
    requires
        !e.inner.not_found,
    ensures
        e.status_spec() == StatusCode::BadRequest,
{
}

/// A container classified under a kind with no payload yields exactly the
/// bare tag form as its body, whatever its cause: the `message` key appears
/// for the payload-carrying variants only.
pub proof fn lemma_no_payload_body(e: LemmyError, k: crate::kind::LemmyErrorType)
    requires
        e.error_type == Some(k),
        k.message_spec() is None,
    ensures
        e.body_text_spec() == "{\"error\":\""@ + k.tag_spec() + "\"}"@,
{
}

} // verus!

