//! The validated-query step in front of the route: a deserialized query is
//! accepted only once its fields validate, and each of the two ways it can
//! fail — the query not deserializing at all, or a field not validating —
//! maps to its own 400 response.

use vstd::prelude::*;
use crate::dto::ErrorDTO;
use crate::dto::ErrorWithValidationErrorsDTO;
use crate::dto::ValidationIssues;
use crate::handlers::has_https_prefix;
use crate::handlers::CreateFigureRequest;
use crate::handlers::url_ok;

verus! {

/// A query value that has passed field validation.
#[derive(Debug, Clone, Copy)]
pub struct ValidatedQuery<T>(pub T);

/// The two ways the query step can fail before the route runs.
#[derive(Debug)]
pub enum ServerError {
    /// The query deserialized, but a field did not validate.
    ValidationError(ValidationIssues),
    /// The query string could not be deserialized; carries the text the
    /// query layer prepared for the client.
    AxumFormRejection(String),
}

/// An error response body of the query step: either a bare message or a
/// message with the field-level failures.
#[derive(Debug, Clone)]
pub enum QueryErrorBody {
    Plain(ErrorDTO),
    WithValidation(ErrorWithValidationErrorsDTO),
}

impl ServerError {
    /// Both failures of the query step concern the request: status 400.
    pub open spec fn spec_status(&self) -> u16 {
        400
    }

    /// The HTTP status code of this failure.
    pub fn status_code(&self) -> (s: u16)
        ensures
            s == self.spec_status(),
    {
        400
    }

    /// Translates the failure to the parts of its HTTP response.
    pub fn into_response_parts(self) -> (r: (u16, QueryErrorBody))
        ensures
            r.0 == 400,
            (self matches ServerError::ValidationError(e) ==> (r.1 matches
                QueryErrorBody::WithValidation(b) && b.message@ == "validation errors ocurred"@
                && b.errors == e)),
            (self matches ServerError::AxumFormRejection(m) ==> (r.1 matches QueryErrorBody::Plain(
                b,
            ) && b.message == m)),
    {
        match self {
            ServerError::ValidationError(errors) => (
                400,
                QueryErrorBody::WithValidation(
                    ErrorWithValidationErrorsDTO::new(
                        String::from_str("validation errors ocurred"),
                        errors,
                    ),
                ),
            ),
            ServerError::AxumFormRejection(message) => (
                400,
                QueryErrorBody::Plain(ErrorDTO::new(message)),
            ),
        }
    }
}

/// The validation step for the download query: accepts the deserialized
/// request exactly when its URL is a well-formed absolute URL using the
/// secure scheme, and otherwise refuses it with the field-level failures,
/// before any subprocess can be involved.
pub fn validated_figure_query(value: CreateFigureRequest) -> (r: Result<
    ValidatedQuery<CreateFigureRequest>,
    ServerError,
>)
    ensures
        r is Ok <==> (url_ok(value.url@) && has_https_prefix(value.url@)),
        (r matches Ok(q) ==> q.0 == value),
        (r matches Err(e) ==> (e.spec_status() == 400 && (e matches ServerError::ValidationError(v)
            && v.issues@.len() == 1 && v.issues@[0].field@ == "url"@))),
{
    match value.validate() {
        Ok(()) => Ok(ValidatedQuery(value)),
        Err(issues) => Err(ServerError::ValidationError(issues)),
    }
}

} // verus!
