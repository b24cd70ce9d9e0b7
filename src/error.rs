use vstd::prelude::*;
use vstd::string::StringExecFns;

verus! {

/// Body of an error response: a human-readable message and the status line.
pub struct Error {
    pub message: String,
    pub status: String,
}

impl Error {
    pub fn new(message: String, status: String) -> (r: Self)
        ensures
            r.message == message,
            r.status == status,
    {
        Self { message, status }
    }
}

/// The request-level failures of the service.
#[derive(Clone, Copy, Debug, PartialEq, Eq, Structural)]
pub enum AppError {
    /// A payload lacks one of its required fields.
    InvalidParams,
    /// No stored book has the requested identifier.
    NotFound,
}

/// The text an HTTP status line gives for `code`, as http's `StatusCode` renders it.
pub uninterp spec fn status_line_of(code: u16) -> Seq<char>;

/// Relies on http's `StatusCode::from_u16` and its `Display`: the code in decimal,
/// a space and the canonical reason. Codes from 100 to 999 are accepted.
#[verifier::external_body]
fn status_line(code: u16) -> (r: String)
    requires
        100 <= code <= 999,
    ensures
        r@ == status_line_of(code),
{
    match axum::http::StatusCode::from_u16(code) {
        Ok(s) => s.to_string(),
        Err(_) => String::new(),
    }
}

impl AppError {
    pub open spec fn spec_status_code(self) -> u16 {
        match self {
            AppError::InvalidParams => 400,
            AppError::NotFound => 404,
        }
    }

    pub open spec fn spec_message(self) -> Seq<char> {
        match self {
            AppError::InvalidParams => "Invalid params on request"@,
            AppError::NotFound => "book not found"@,
        }
    }

    /// The HTTP status code this failure is reported with.
    pub fn status_code(&self) -> (r: u16)
        ensures
            r == self.spec_status_code(),
    {
        match self {
            AppError::InvalidParams => 400,
            AppError::NotFound => 404,
        }
    }

    /// The fixed human-readable message of this failure.
    pub fn message(&self) -> (r: String)
        ensures
            r@ == self.spec_message(),
    {
        match self {
            AppError::InvalidParams => String::from_str("Invalid params on request"),
            AppError::NotFound => String::from_str("book not found"),
        }
    }

    /// The error body: the message and the status line of the status code.
    pub fn to_error(&self) -> (r: Error)
        ensures
            r.message@ == self.spec_message(),
            r.status@ == status_line_of(self.spec_status_code()),
    {
        let code = self.status_code();
        Error::new(self.message(), status_line(code))
    }
}

} // verus!
