//! The two error taxonomies: local syntax validation and remote verification.
use vstd::prelude::*;
use crate::text::str_eq;

verus! {

/// The error that `serde_json` reports for a body that is not JSON.
#[verifier::external_type_specification]
#[verifier::external_body]
pub struct ExJsonError(serde_json::Error);

/// The error that `roxmltree` reports for a body that is not well-formed XML.
#[verifier::external_type_specification]
#[verifier::external_body]
pub struct ExXmlError(roxmltree::Error);

/// Why a string is not a tax id that this library handles.
#[derive(Debug)]
pub enum ValidationError {
    /// No provider governs the two-letter prefix (which the variant carries).
    UnsupportedCountryCode(String),
    /// The prefix is known but the string does not follow its syntax.
    InvalidSyntax,
    /// The string has fewer than two characters, so it has no prefix at all.
    TooShort,
}

impl PartialEq for ValidationError {
    fn eq(&self, other: &ValidationError) -> (r: bool) {
        match (self, other) {
            (ValidationError::UnsupportedCountryCode(a), ValidationError::UnsupportedCountryCode(b)) => {
                str_eq(a.as_str(), b.as_str())
            },
            (ValidationError::InvalidSyntax, ValidationError::InvalidSyntax) => true,
            (ValidationError::TooShort, ValidationError::TooShort) => true,
            _ => false,
        }
    }
}

impl vstd::std_specs::cmp::PartialEqSpecImpl for ValidationError {
    open spec fn obeys_eq_spec() -> bool {
        true
    }

    open spec fn eq_spec(&self, other: &ValidationError) -> bool {
        match (self, other) {
            (ValidationError::UnsupportedCountryCode(a), ValidationError::UnsupportedCountryCode(b)) => a@ == b@,
            (ValidationError::InvalidSyntax, ValidationError::InvalidSyntax) => true,
            (ValidationError::TooShort, ValidationError::TooShort) => true,
            _ => false,
        }
    }
}

/// Why a verification against a registry produced no outcome.
#[derive(Debug)]
pub enum VerificationError {
    /// The request could not be sent or its answer not read (the transport's message).
    HttpError(String),
    /// The body that should hold JSON does not.
    JsonParsingError(serde_json::Error),
    /// The registry answered with a value that this library does not model.
    UnexpectedResponse(String),
    /// The registry answered with an HTTP status that its decoder does not model.
    UnexpectedStatusCode(u16),
    /// The body that should hold XML does not.
    XmlParsingError(roxmltree::Error),
}

} // verus!
