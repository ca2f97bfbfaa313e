//! What can go wrong with a request, and how it is answered.
use vstd::prelude::*;

use crate::json::{text, Fields, Json, JsonModel};
use crate::text::joined;

verus! {

/// The reason why a request was not served.
#[derive(Debug, PartialEq, Eq)]
pub enum AppError {
    /// The request itself is at fault.
    BadRequest(String),
    /// What was asked for does not exist.
    NotFound(String),
    /// The SDK cannot serve requests yet.
    SdkNotReady(String),
    /// The SDK refused the request.
    Sdk(String),
    /// Anything else.
    Internal(String),
}

/// The mathematical counterpart of [`AppError`].
pub enum AppErrorModel {
    BadRequest(Seq<char>),
    NotFound(Seq<char>),
    SdkNotReady(Seq<char>),
    Sdk(Seq<char>),
    Internal(Seq<char>),
}

impl View for AppError {
    type V = AppErrorModel;

    open spec fn view(&self) -> AppErrorModel {
        match self {
            AppError::BadRequest(m) => AppErrorModel::BadRequest(m@),
            AppError::NotFound(m) => AppErrorModel::NotFound(m@),
            AppError::SdkNotReady(m) => AppErrorModel::SdkNotReady(m@),
            AppError::Sdk(m) => AppErrorModel::Sdk(m@),
            AppError::Internal(m) => AppErrorModel::Internal(m@),
        }
    }
}

impl AppErrorModel {
    /// The HTTP status that answers the error.
    pub open spec fn status(self) -> u16 {
        match self {
            AppErrorModel::BadRequest(_) => 400,
            AppErrorModel::NotFound(_) => 404,
            AppErrorModel::SdkNotReady(_) => 503,
            AppErrorModel::Sdk(_) => 422,
            AppErrorModel::Internal(_) => 500,
        }
    }

    /// The text that the error carries.
    pub open spec fn message(self) -> Seq<char> {
        match self {
            AppErrorModel::BadRequest(m) => m,
            AppErrorModel::NotFound(m) => m,
            AppErrorModel::SdkNotReady(m) => m,
            AppErrorModel::Sdk(m) => m,
            AppErrorModel::Internal(m) => m,
        }
    }

    /// The words that say which kind of error it is.
    pub open spec fn kind(self) -> Seq<char> {
        match self {
            AppErrorModel::BadRequest(_) => "bad request: "@,
            AppErrorModel::NotFound(_) => "not found: "@,
            AppErrorModel::SdkNotReady(_) => "SDK not ready: "@,
            AppErrorModel::Sdk(_) => "SDK error: "@,
            AppErrorModel::Internal(_) => "internal: "@,
        }
    }
}

/// The JSON body that reports `message`.
pub open spec fn error_body(message: Seq<char>) -> JsonModel {
    JsonModel::Object(seq![("error"@, JsonModel::Text(message))])
}

impl AppError {
    /// The error in one line of text, its kind first.
    pub fn display(&self) -> (r: String)
        ensures
            r@ == self@.kind() + self@.message(),
    {
        match self {
            AppError::BadRequest(m) => joined("bad request: ", m.as_str()),
            AppError::NotFound(m) => joined("not found: ", m.as_str()),
            AppError::SdkNotReady(m) => joined("SDK not ready: ", m.as_str()),
            AppError::Sdk(m) => joined("SDK error: ", m.as_str()),
            AppError::Internal(m) => joined("internal: ", m.as_str()),
        }
    }

    /// The HTTP status and the JSON body that answer a request which failed with this error.
    pub fn into_response(self) -> (r: (u16, Json))
        ensures
            r.0 == self@.status(),
            r.1@ == error_body(self@.message()),
    {
        let (status, message) = match self {
            AppError::BadRequest(m) => (400, m),
            AppError::NotFound(m) => (404, m),
            AppError::SdkNotReady(m) => (503, m),
            AppError::Sdk(m) => (422, m),
            AppError::Internal(m) => (500, m),
        };
        (status, Fields::new().with("error", text(message.as_str())).object())
    }
}

/// The model of what a handler returned.
pub open spec fn answer(r: Result<Json, AppError>) -> Result<JsonModel, AppErrorModel> {
    match r {
        Ok(body) => Ok(body@),
        Err(e) => Err(e@),
    }
}

/// Errors that are answered with the same status are of the same kind: the status alone tells a
/// caller what went wrong.
pub proof fn status_tells_the_kind(left: AppErrorModel, right: AppErrorModel)
    ensures
        left.status() == right.status() <==> left.kind() == right.kind(),
        400 <= left.status() < 600,
{
    reveal_strlit("bad request: ");
    reveal_strlit("not found: ");
    reveal_strlit("SDK not ready: ");
    reveal_strlit("SDK error: ");
    reveal_strlit("internal: ");
    assert("bad request: "@[0] == 'b');
    assert("not found: "@[0] == 'n');
    assert("internal: "@[0] == 'i');
    assert("SDK not ready: "@[4] == 'n');
    assert("SDK error: "@[4] == 'e');
}

/// Each kind of error has its own status: a bad request is answered 400, a missing thing 404, an SDK
/// that is not ready 503, a refusal of the SDK 422, anything else 500.
pub proof fn status_fits_the_kind(e: AppErrorModel)
    ensures
        e is BadRequest <==> e.status() == 400,
        e is NotFound <==> e.status() == 404,
        e is SdkNotReady <==> e.status() == 503,
        e is Sdk <==> e.status() == 422,
        e is Internal <==> e.status() == 500,
{
}

/// Nothing is lost of an error: the body shows the text that the error carries, and so does the
/// line that displays it, after the words for its kind.
pub proof fn error_text_is_passed_on(text: Seq<char>)
    ensures
        error_body(text).shows("error"@, JsonModel::Text(text)),
        error_body(text).size() == 1,
        AppErrorModel::BadRequest(text).message() == text,
        AppErrorModel::NotFound(text).message() == text,
        AppErrorModel::SdkNotReady(text).message() == text,
        AppErrorModel::Sdk(text).message() == text,
        AppErrorModel::Internal(text).message() == text,
        "bad request"@.is_prefix_of(AppErrorModel::BadRequest(text).kind()),
        "not found"@.is_prefix_of(AppErrorModel::NotFound(text).kind()),
        "SDK not ready"@.is_prefix_of(AppErrorModel::SdkNotReady(text).kind()),
        "SDK error"@.is_prefix_of(AppErrorModel::Sdk(text).kind()),
        "internal"@.is_prefix_of(AppErrorModel::Internal(text).kind()),
{
    assert(error_body(text)->Object_0[0] == ("error"@, JsonModel::Text(text)));
    reveal_strlit("bad request");
    reveal_strlit("bad request: ");
    reveal_strlit("not found");
    reveal_strlit("not found: ");
    reveal_strlit("SDK not ready");
    reveal_strlit("SDK not ready: ");
    reveal_strlit("SDK error");
    reveal_strlit("SDK error: ");
    reveal_strlit("internal");
    reveal_strlit("internal: ");
}

} // verus!
