//! The model-language tag: the closed set of ecosystems a model statement
//! may name. An arbitrary string is rejected at parse time with a typed
//! error, never accepted as free text and never fatal.

use vstd::prelude::*;
use crate::ast::ModelLanguage;
use crate::error::ValidationError;
use crate::text::str_eq;

verus! {

/// The model language a tag names, if any: exactly `"Rust"`, `"Python"`,
/// `"Julia"` or `"R"`.
pub open spec fn language_of(tag: Seq<char>) -> Option<ModelLanguage> {
    if tag == "Rust"@ {
        Option::Some(ModelLanguage::Rust)
    } else if tag == "Python"@ {
        Option::Some(ModelLanguage::Python)
    } else if tag == "Julia"@ {
        Option::Some(ModelLanguage::Julia)
    } else if tag == "R"@ {
        Option::Some(ModelLanguage::R)
    } else {
        Option::None
    }
}

/// Resolves a model-language tag. Succeeds exactly on the four supported
/// ecosystem names and returns the matching closed variant; anything else
/// is the malformed-identifier error.
pub fn model_language_tag(tag: &str) -> (r: Result<ModelLanguage, ValidationError>)
    ensures
        r is Ok <==> language_of(tag@) is Some,
        r matches Ok(l) ==> Option::Some(l) == language_of(tag@),
        r matches Err(e) ==> e == ValidationError::MalformedIdentifier,
{
    if str_eq(tag, "Rust") {
        Ok(ModelLanguage::Rust)
    } else if str_eq(tag, "Python") {
        Ok(ModelLanguage::Python)
    } else if str_eq(tag, "Julia") {
        Ok(ModelLanguage::Julia)
    } else if str_eq(tag, "R") {
        Ok(ModelLanguage::R)
    } else {
        Err(ValidationError::MalformedIdentifier)
    }
}

} // verus!
