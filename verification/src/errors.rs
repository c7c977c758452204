//! The error envelope returned by every fallible library operation.

use vstd::prelude::*;

verus! {

/// One structured detail of an error: a key and its rendered value.
#[derive(Debug, Clone, PartialEq, Eq)]
pub struct ErrorDetail {
    pub key: String,
    pub value: String,
}

/// Stable error envelope: a machine-readable code, a human message, structured details
/// and whether a retry may succeed.
#[derive(Debug, Clone, PartialEq, Eq)]
pub struct AppError {
    pub code: String,
    pub message: String,
    pub details: Vec<ErrorDetail>,
    pub retryable: bool,
}

pub type AppResult<T> = Result<T, AppError>;

impl AppError {
    /// An error with the given code and message, no details, not retryable.
    pub fn new(code: &str, message: &str) -> (r: AppError)
        ensures
            r.code@ == code@,
            r.message@ == message@,
            r.details@.len() == 0,
            !r.retryable,
    {
        AppError {
            code: code.to_owned(),
            message: message.to_owned(),
            details: Vec::new(),
            retryable: false,
        }
    }

    /// The same error with one more detail appended.
    pub fn with_detail(self, key: &str, value: String) -> (r: AppError)
        ensures
            r.code@ == self.code@,
            r.message@ == self.message@,
            r.retryable == self.retryable,
            r.details@.len() == self.details@.len() + 1,
            forall|i: int| 0 <= i < self.details@.len() ==> r.details@[i] == self.details@[i],
            r.details@.last().key@ == key@,
            r.details@.last().value@ == value@,
    {
        let mut details = self.details;
        details.push(ErrorDetail { key: key.to_owned(), value });
        AppError { code: self.code, message: self.message, details, retryable: self.retryable }
    }
}

} // verus!
