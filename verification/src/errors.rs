//! The application's error type: its text and the HTTP status it answers with.

use vstd::prelude::*;

verus! {

#[derive(Debug)]
pub enum AppError {
    ClickHouse(String),
    BadRequest(String),
    Internal(String),
}

/// The text of an error, as it is displayed.
pub open spec fn spec_error_text(e: AppError) -> Seq<char> {
    match e {
        AppError::ClickHouse(msg) => "ClickHouse error: "@ + msg@,
        AppError::BadRequest(msg) => "Bad request: "@ + msg@,
        AppError::Internal(msg) => "Internal error: "@ + msg@,
    }
}

/// The HTTP status an error is answered with.
pub open spec fn spec_status_code(e: AppError) -> u16 {
    match e {
        AppError::BadRequest(_) => 400,
        _ => 500,
    }
}

/// The message an error carries, which is what its HTTP answer reports.
pub open spec fn spec_error_message(e: AppError) -> Seq<char> {
    match e {
        AppError::ClickHouse(msg) => msg@,
        AppError::BadRequest(msg) => msg@,
        AppError::Internal(msg) => msg@,
    }
}

impl AppError {
    /// The error as it is displayed: a prefix naming its kind, then its message.
    pub fn to_display_string(&self) -> (r: String)
        ensures
            r@ == spec_error_text(*self),
    {
        match self {
            AppError::ClickHouse(msg) => "ClickHouse error: ".to_owned().concat(msg.as_str()),
            AppError::BadRequest(msg) => "Bad request: ".to_owned().concat(msg.as_str()),
            AppError::Internal(msg) => "Internal error: ".to_owned().concat(msg.as_str()),
        }
    }

    /// The HTTP status of the error's answer: 400 for a bad request, else 500.
    pub fn status_code(&self) -> (r: u16)
        ensures
            r == spec_status_code(*self),
    {
        match self {
            AppError::BadRequest(_) => 400,
            _ => 500,
        }
    }

    /// The message the error's answer reports.
    pub fn message(&self) -> (r: &String)
        ensures
            r@ == spec_error_message(*self),
    {
        match self {
            AppError::ClickHouse(msg) => msg,
            AppError::BadRequest(msg) => msg,
            AppError::Internal(msg) => msg,
        }
    }
}

} // verus!

verus! {

/// The displayed text of an error ends with its message, after a prefix that
/// names its kind.
pub proof fn lemma_display_ends_with_message(e: AppError)
    ensures
        spec_error_message(e).len() <= spec_error_text(e).len(),
        spec_error_text(e).skip(spec_error_text(e).len() - spec_error_message(e).len())
            == spec_error_message(e),
{
    let t = spec_error_text(e);
    let m = spec_error_message(e);
    assert(t.skip(t.len() - m.len()) =~= m);
}

} // verus!

verus! {

/// A bad request is answered with status 400; every other error with 500.
pub proof fn lemma_status_by_kind(e: AppError)
    ensures
        spec_status_code(e) == 400 <==> e is BadRequest,
        !(e is BadRequest) ==> spec_status_code(e) == 500,
        spec_error_message(e) == match e {
            AppError::ClickHouse(m) => m@,
            AppError::BadRequest(m) => m@,
            AppError::Internal(m) => m@,
        },
{
}

} // verus!
