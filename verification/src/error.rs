//! The error taxonomy: every failure a caller can see, with its HTTP status,
//! display text, response body, and the text-based classification used at the
//! boundary.
use vstd::prelude::*;
use crate::jsonout::json_string;
use crate::text::contains_sub;

verus! {

/// Errors surfaced by the library.  `ExternalServiceRetryable` marks a
/// transient upstream failure that the orchestrator may retry; the raw
/// upstream body rides along on the raw-carrying variants for diagnosis.
#[derive(Debug, Clone, PartialEq, Eq)]
pub enum AppError {
    Database(String),
    Auth(String),
    NotFound(String),
    ExternalService(String),
    ExternalServiceWithRaw { message: String, raw_response: String },
    ExternalServiceRetryable { message: String, raw_response: String },
    Validation(String),
    BadRequest(String),
    Unauthorized(String),
    Internal(String),
}

/// Mathematical shadow of `AppError`.
pub enum AppErrorV {
    Database(Seq<char>),
    Auth(Seq<char>),
    NotFound(Seq<char>),
    ExternalService(Seq<char>),
    ExternalServiceWithRaw { message: Seq<char>, raw_response: Seq<char> },
    ExternalServiceRetryable { message: Seq<char>, raw_response: Seq<char> },
    Validation(Seq<char>),
    BadRequest(Seq<char>),
    Unauthorized(Seq<char>),
    Internal(Seq<char>),
}

impl DeepView for AppError {
    type V = AppErrorV;

    open spec fn deep_view(&self) -> AppErrorV {
        match self {
            AppError::Database(s) => AppErrorV::Database(s@),
            AppError::Auth(s) => AppErrorV::Auth(s@),
            AppError::NotFound(s) => AppErrorV::NotFound(s@),
            AppError::ExternalService(s) => AppErrorV::ExternalService(s@),
            AppError::ExternalServiceWithRaw { message, raw_response } =>
                AppErrorV::ExternalServiceWithRaw {
                message: message@,
                raw_response: raw_response@,
            },
            AppError::ExternalServiceRetryable { message, raw_response } =>
                AppErrorV::ExternalServiceRetryable {
                message: message@,
                raw_response: raw_response@,
            },
            AppError::Validation(s) => AppErrorV::Validation(s@),
            AppError::BadRequest(s) => AppErrorV::BadRequest(s@),
            AppError::Unauthorized(s) => AppErrorV::Unauthorized(s@),
            AppError::Internal(s) => AppErrorV::Internal(s@),
        }
    }
}

/// The HTTP status each error maps to.
pub open spec fn status_of(e: AppErrorV) -> u16 {
    match e {
        AppErrorV::Database(_) => 500,
        AppErrorV::Auth(_) => 403,
        AppErrorV::NotFound(_) => 404,
        AppErrorV::ExternalService(_) => 500,
        AppErrorV::ExternalServiceWithRaw { .. } => 500,
        AppErrorV::ExternalServiceRetryable { .. } => 500,
        AppErrorV::Validation(_) => 400,
        AppErrorV::BadRequest(_) => 400,
        AppErrorV::Unauthorized(_) => 401,
        AppErrorV::Internal(_) => 500,
    }
}

/// The display text of each error.
pub open spec fn message_of(e: AppErrorV) -> Seq<char> {
    match e {
        AppErrorV::Database(s) => "Database error: "@ + s,
        AppErrorV::Auth(s) => "Authentication/Authorization error: "@ + s,
        AppErrorV::NotFound(s) => "Resource not found: "@ + s,
        AppErrorV::ExternalService(s) => "External service error: "@ + s,
        AppErrorV::ExternalServiceWithRaw { message, .. } => "External service error: "@ + message,
        AppErrorV::ExternalServiceRetryable { message, .. } => "External service error (retryable): "@
            + message,
        AppErrorV::Validation(s) => "Validation error: "@ + s,
        AppErrorV::BadRequest(s) => "Bad request: "@ + s,
        AppErrorV::Unauthorized(s) => "Unauthorized: "@ + s,
        AppErrorV::Internal(s) => "Internal error: "@ + s,
    }
}

/// The JSON body served for each error: its text under `error` and
/// `message`, and the raw upstream body under `raw_response` for the
/// raw-carrying variants.
pub open spec fn body_of(e: AppErrorV) -> Seq<char> {
    let msg = message_of(e);
    let head = "{\"error\":"@ + json_string(msg) + ",\"message\":"@ + json_string(msg);
    match e {
        AppErrorV::ExternalServiceWithRaw { raw_response, .. } => head + ",\"raw_response\":"@
            + json_string(raw_response) + "}"@,
        AppErrorV::ExternalServiceRetryable { raw_response, .. } => head + ",\"raw_response\":"@
            + json_string(raw_response) + "}"@,
        _ => head + "}"@,
    }
}

impl AppError {
    /// The HTTP status code this error is served with.
    pub fn status_code(&self) -> (r: u16)
        ensures
            r == status_of(self.deep_view()),
    {
        match self {
            AppError::Database(_) => 500,
            AppError::Auth(_) => 403,
            AppError::NotFound(_) => 404,
            AppError::ExternalService(_) => 500,
            AppError::ExternalServiceWithRaw { .. } => 500,
            AppError::ExternalServiceRetryable { .. } => 500,
            AppError::Validation(_) => 400,
            AppError::BadRequest(_) => 400,
            AppError::Unauthorized(_) => 401,
            AppError::Internal(_) => 500,
        }
    }

    /// The display text of this error.
    pub fn message(&self) -> (r: String)
        ensures
            r@ == message_of(self.deep_view()),
    {
        let mut out: Vec<char> = Vec::new();
        match self {
            AppError::Database(s) => {
                crate::chars::push_chars(&mut out, "Database error: ");
                crate::chars::push_chars(&mut out, s.as_str());
            },
            AppError::Auth(s) => {
                crate::chars::push_chars(&mut out, "Authentication/Authorization error: ");
                crate::chars::push_chars(&mut out, s.as_str());
            },
            AppError::NotFound(s) => {
                crate::chars::push_chars(&mut out, "Resource not found: ");
                crate::chars::push_chars(&mut out, s.as_str());
            },
            AppError::ExternalService(s) => {
                crate::chars::push_chars(&mut out, "External service error: ");
                crate::chars::push_chars(&mut out, s.as_str());
            },
            AppError::ExternalServiceWithRaw { message, .. } => {
                crate::chars::push_chars(&mut out, "External service error: ");
                crate::chars::push_chars(&mut out, message.as_str());
            },
            AppError::ExternalServiceRetryable { message, .. } => {
                crate::chars::push_chars(&mut out, "External service error (retryable): ");
                crate::chars::push_chars(&mut out, message.as_str());
            },
            AppError::Validation(s) => {
                crate::chars::push_chars(&mut out, "Validation error: ");
                crate::chars::push_chars(&mut out, s.as_str());
            },
            AppError::BadRequest(s) => {
                crate::chars::push_chars(&mut out, "Bad request: ");
                crate::chars::push_chars(&mut out, s.as_str());
            },
            AppError::Unauthorized(s) => {
                crate::chars::push_chars(&mut out, "Unauthorized: ");
                crate::chars::push_chars(&mut out, s.as_str());
            },
            AppError::Internal(s) => {
                crate::chars::push_chars(&mut out, "Internal error: ");
                crate::chars::push_chars(&mut out, s.as_str());
            },
        }
        proof {
            assert(Seq::<char>::empty() + message_of(self.deep_view()) =~= message_of(
                self.deep_view(),
            ));
        }
        crate::chars::chars_to_string(&out)
    }

    /// The JSON body this error is served with.
    pub fn error_body(&self) -> (r: String)
        ensures
            r@ == body_of(self.deep_view()),
    {
        let msg = self.message();
        let mut out: Vec<char> = Vec::new();
        crate::chars::push_chars(&mut out, "{\"error\":");
        crate::jsonout::push_json_str(&mut out, msg.as_str());
        crate::chars::push_chars(&mut out, ",\"message\":");
        crate::jsonout::push_json_str(&mut out, msg.as_str());
        match self {
            AppError::ExternalServiceWithRaw { raw_response, .. } => {
                crate::chars::push_chars(&mut out, ",\"raw_response\":");
                crate::jsonout::push_json_str(&mut out, raw_response.as_str());
            },
            AppError::ExternalServiceRetryable { raw_response, .. } => {
                crate::chars::push_chars(&mut out, ",\"raw_response\":");
                crate::jsonout::push_json_str(&mut out, raw_response.as_str());
            },
            _ => {},
        }
        crate::chars::push_chars(&mut out, "}");
        proof {
            assert(out@ =~= body_of(self.deep_view()));
        }
        crate::chars::chars_to_string(&out)
    }
}

/// The boundary's classification of an error's display text.
pub open spec fn classified_error(msg: Seq<char>, context: Seq<char>) -> AppErrorV {
    if contains_sub(msg, "not found"@) {
        AppErrorV::NotFound(msg)
    } else if contains_sub(msg, "access denied"@) || contains_sub(msg, "Forbidden"@) {
        AppErrorV::Auth(msg)
    } else if contains_sub(msg, "Invalid"@) || contains_sub(msg, "Validation"@) {
        AppErrorV::Validation(msg)
    } else {
        AppErrorV::Internal(context + ": "@ + msg)
    }
}

/// Classifies a failure by its display text: not-found, access, and
/// validation failures keep their text; anything else is wrapped as an
/// internal error under the given context.
pub fn handle_error(msg: &str, context: &str) -> (r: AppError)
    ensures
        r.deep_view() == classified_error(msg@, context@),
{
    if crate::text::str_contains(msg, "not found") {
        AppError::NotFound(msg.to_owned())
    } else if crate::text::str_contains(msg, "access denied") || crate::text::str_contains(
        msg,
        "Forbidden",
    ) {
        AppError::Auth(msg.to_owned())
    } else if crate::text::str_contains(msg, "Invalid") || crate::text::str_contains(
        msg,
        "Validation",
    ) {
        AppError::Validation(msg.to_owned())
    } else {
        let mut out: Vec<char> = Vec::new();
        crate::chars::push_chars(&mut out, context);
        crate::chars::push_chars(&mut out, ": ");
        crate::chars::push_chars(&mut out, msg);
        proof {
            assert(out@ =~= context@ + ": "@ + msg@);
        }
        AppError::Internal(crate::chars::chars_to_string(&out))
    }
}

/// Classification of an import failure.
pub fn handle_import_error(msg: &str) -> (r: AppError)
    ensures
        r.deep_view() == classified_error(msg@, "Import failed"@),
{
    handle_error(msg, "Import failed")
}

} // verus!
