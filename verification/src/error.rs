use vstd::prelude::*;
use crate::text::cat;

verus! {

/// Errors that can occur while transforming an input value into a target type.
#[derive(Clone, Debug, PartialEq, Eq)]
pub enum MorphError {
    /// A required field was missing in the source value.
    MissingField(String),
    /// A `with` transform function rejected the source value.
    TransformError(String),
    /// A `validate` hook rejected the transformed value.
    ValidationError(String),
}

impl MorphError {
    /// The human-readable text of the error.
    pub open spec fn spec_message(&self) -> Seq<char> {
        match self {
            MorphError::MissingField(field) => "Required field is missing: "@ + field@,
            MorphError::TransformError(msg) => "Field transform failed: "@ + msg@,
            MorphError::ValidationError(msg) => "Validation failed: "@ + msg@,
        }
    }

    /// The human-readable text of the error, such as
    /// `Required field is missing: request_id`.
    pub fn message(&self) -> (r: String)
        ensures
            r@ == self.spec_message(),
    {
        match self {
            MorphError::MissingField(field) => cat("Required field is missing: ", field.as_str()),
            MorphError::TransformError(msg) => cat("Field transform failed: ", msg.as_str()),
            MorphError::ValidationError(msg) => cat("Validation failed: ", msg.as_str()),
        }
    }
}

} // verus!
