//! The failures a request can end in, and how each one is shown to the client.

use vstd::prelude::*;

verus! {

/// Why a request was refused.
#[derive(Clone, Copy, Debug, PartialEq, Eq, Structural)]
pub enum AppError {
    /// The identifier is unknown, has expired, or has used up its downloads.
    NotFound,
    /// The upload carried no `file` field.
    NoFileProvided,
    /// The upload secret did not match.
    Unauthorized,
    /// The request body could not be decoded.
    MalformedRequest,
    /// A payload could not be written or read.
    StorageFault,
}

impl AppError {
    /// The HTTP status this failure is answered with.
    pub open spec fn spec_status(self) -> u16 {
        match self {
            AppError::NotFound => 404,
            AppError::NoFileProvided => 400,
            AppError::Unauthorized => 401,
            AppError::MalformedRequest => 400,
            AppError::StorageFault => 500,
        }
    }

    /// The response body this failure is answered with.
    pub open spec fn spec_body(self) -> Seq<char> {
        match self {
            AppError::NotFound => "file not found"@,
            AppError::NoFileProvided => "expected multipart field named 'file'"@,
            AppError::Unauthorized => "invalid upload password"@,
            AppError::MalformedRequest => "failed to parse upload"@,
            AppError::StorageFault => "internal storage error"@,
        }
    }

    #[verifier::when_used_as_spec(spec_status)]
    pub fn status(self) -> (code: u16)
        ensures
            code == self.spec_status(),
    {
        match self {
            AppError::NotFound => 404,
            AppError::NoFileProvided => 400,
            AppError::Unauthorized => 401,
            AppError::MalformedRequest => 400,
            AppError::StorageFault => 500,
        }
    }

    pub fn body(self) -> (text: &'static str)
        ensures
            text@ == self.spec_body(),
    {
        match self {
            AppError::NotFound => "file not found",
            AppError::NoFileProvided => "expected multipart field named 'file'",
            AppError::Unauthorized => "invalid upload password",
            AppError::MalformedRequest => "failed to parse upload",
            AppError::StorageFault => "internal storage error",
        }
    }
}

} // verus!
