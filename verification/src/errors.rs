//! The closed set of failure kinds and the exhaustive translation of each
//! kind to an HTTP status code and a response body.  No internal error text
//! ever reaches a body: every message below is fixed, or is the text the
//! query layer already prepared for the client.

use vstd::prelude::*;
use crate::dto::ValidationIssues;

verus! {

/// The body of an error response that carries a single message.
#[derive(Debug, Clone)]
pub struct ErrorDTO {
    pub message: String,
}

impl ErrorDTO {
    pub fn new(message: String) -> (r: Self)
        ensures
            r.message == message,
    {
        ErrorDTO { message }
    }
}

/// The body of an error response that carries a message and the per-field
/// validation failures.
#[derive(Debug, Clone)]
pub struct ErrorWithValidationErrorsDTO {
    pub message: String,
    pub errors: ValidationIssues,
}

impl ErrorWithValidationErrorsDTO {
    pub fn new(message: String, errors: ValidationIssues) -> (r: Self)
        ensures
            r.message == message,
            r.errors == errors,
    {
        ErrorWithValidationErrorsDTO { message, errors }
    }
}

/// Everything that can go wrong while serving a download, one variant per
/// user-visible failure kind.
#[derive(Debug)]
pub enum ApiError {
    /// The request's fields did not validate.
    ValidationError(ValidationIssues),
    /// The query string could not be deserialized at all; carries the text
    /// the query layer prepared for the client.
    AxumFormRejection(String),
    /// A spawn, pipe or wait failure on the server side.
    CannotDownloadInternal,
    /// Well-formed input on which the tool recognized no media.
    CannotDownloadBadRequest,
    /// The filename phase exceeded its deadline.
    CannotDownloadTimeout,
}

/// An error response body: either a bare message, or a message together with
/// the field-level validation failures.
#[derive(Debug, Clone)]
pub enum ErrorBody {
    Plain(ErrorDTO),
    WithValidation(ErrorWithValidationErrorsDTO),
}

impl ApiError {
    /// The status code each failure kind is answered with: 400 for anything
    /// wrong with the request, 504 for the filename-phase timeout, 500 for
    /// server-side failures.
    pub open spec fn spec_status(&self) -> u16 {
        match self {
            ApiError::ValidationError(_) => 400,
            ApiError::AxumFormRejection(_) => 400,
            ApiError::CannotDownloadBadRequest => 400,
            ApiError::CannotDownloadTimeout => 504,
            ApiError::CannotDownloadInternal => 500,
        }
    }

    /// The HTTP status code of this failure.
    pub fn status_code(&self) -> (s: u16)
        ensures
            s == self.spec_status(),
    {
        match self {
            ApiError::ValidationError(_) => 400,
            ApiError::AxumFormRejection(_) => 400,
            ApiError::CannotDownloadBadRequest => 400,
            ApiError::CannotDownloadTimeout => 504,
            ApiError::CannotDownloadInternal => 500,
        }
    }

    /// The translation to status codes is a partition: 400 is answered
    /// exactly for the failures of the request itself, 504 exactly for the
    /// filename-phase timeout, and 500 exactly for server-side failures, so
    /// no two failure kinds of different severity share a code by accident.
    pub proof fn lemma_status_partition(&self)
        ensures
            self.spec_status() == 400 <==> (self is ValidationError || self is AxumFormRejection
                || self is CannotDownloadBadRequest),
            self.spec_status() == 504 <==> self is CannotDownloadTimeout,
            self.spec_status() == 500 <==> self is CannotDownloadInternal,
    {
    }

    /// Translates the failure to the parts of its HTTP response: the status
    /// code and the body the transport layer serializes.  Every variant maps
    /// to exactly one pair, and no variant leaks anything beyond its fixed
    /// message or the validation details themselves.
    pub fn into_response_parts(self) -> (r: (u16, ErrorBody))
        ensures
            r.0 == self.spec_status(),
            (self matches ApiError::ValidationError(e) ==> (r.1 matches ErrorBody::WithValidation(
                b,
            ) && b.message@ == "validation errors ocurred"@ && b.errors == e)),
            (self matches ApiError::AxumFormRejection(m) ==> (r.1 matches ErrorBody::Plain(b)
                && b.message == m)),
            (self is CannotDownloadBadRequest ==> (r.1 matches ErrorBody::Plain(b) && b.message@
                == "sorry, cannot download this (the reason is likely a bad URL)."@)),
            (self is CannotDownloadInternal ==> (r.1 matches ErrorBody::Plain(b) && b.message@
                == "sorry, cannot download this (the reason likely on our side)."@)),
            (self is CannotDownloadTimeout ==> (r.1 matches ErrorBody::Plain(b) && b.message@
                == "sorry, cannot download this (timed out)."@)),
    {
        match self {
            ApiError::ValidationError(errors) => (
                400,
                ErrorBody::WithValidation(
                    ErrorWithValidationErrorsDTO::new(
                        String::from_str("validation errors ocurred"),
                        errors,
                    ),
                ),
            ),
            ApiError::AxumFormRejection(message) => (400, ErrorBody::Plain(ErrorDTO::new(message))),
            ApiError::CannotDownloadBadRequest => (
                400,
                ErrorBody::Plain(
                    ErrorDTO::new(
                        String::from_str(
                            "sorry, cannot download this (the reason is likely a bad URL).",
                        ),
                    ),
                ),
            ),
            ApiError::CannotDownloadInternal => (
                500,
                ErrorBody::Plain(
                    ErrorDTO::new(
                        String::from_str(
                            "sorry, cannot download this (the reason likely on our side).",
                        ),
                    ),
                ),
            ),
            ApiError::CannotDownloadTimeout => (
                504,
                ErrorBody::Plain(
                    ErrorDTO::new(String::from_str("sorry, cannot download this (timed out).")),
                ),
            ),
        }
    }
}

} // verus!
