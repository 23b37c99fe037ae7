//! The bodies of error responses, as plain data.  The surrounding process
//! serializes them to JSON; the library only states what they carry.

use vstd::prelude::*;

verus! {

/// One field-level validation failure: which field, and a human-readable
/// message.
#[derive(Debug, Clone)]
pub struct FieldIssue {
    pub field: String,
    pub message: String,
}

/// Every field-level failure found while validating a request.
#[derive(Debug, Clone)]
pub struct ValidationIssues {
    pub issues: Vec<FieldIssue>,
}

/// The body of an error response that carries a single message.
#[derive(Debug, Clone)]
pub struct ErrorDTO {
    pub message: String,
}

impl ErrorDTO {
    pub fn new(message: String) -> (r: Self)
        ensures
            r.message == message,
    {
        ErrorDTO { message }
    }
}

/// The body of an error response that carries a message and the per-field
/// validation failures.
#[derive(Debug, Clone)]
pub struct ErrorWithValidationErrorsDTO {
    pub message: String,
    pub errors: ValidationIssues,
}

impl ErrorWithValidationErrorsDTO {
    pub fn new(message: String, errors: ValidationIssues) -> (r: Self)
        ensures
            r.message == message,
            r.errors == errors,
    {
        ErrorWithValidationErrorsDTO { message, errors }
    }
}

} // verus!
