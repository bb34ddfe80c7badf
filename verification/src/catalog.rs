//! The Field Catalog: the fixed classification of recognized field names at
//! each structural position. Unknown fields are tolerated and ignored, so
//! that schema additions from the source API do not break the decoder.

use vstd::prelude::*;
use crate::json::str_eq_lit;

verus! {

/// Which schema a recognized field name belongs to.
#[derive(Debug, Clone, Copy, PartialEq, Eq, Structural)]
pub enum FieldClass {
    BaseOnly,
    ExtensionOnly,
    Unknown,
}

/// Classification of a top-level response field name.
pub open spec fn spec_classify_top_level(k: Seq<char>) -> FieldClass {
    if k == "id"@ || k == "choices"@ || k == "created"@ || k == "model"@ || k == "object"@
        || k == "service_tier"@ || k == "system_fingerprint"@ || k == "usage"@ {
        FieldClass::BaseOnly
    } else if k == "prompt_filter_results"@ {
        FieldClass::ExtensionOnly
    } else {
        FieldClass::Unknown
    }
}

/// Classification of a field name inside one element of the choices array.
pub open spec fn spec_classify_choice_field(k: Seq<char>) -> FieldClass {
    if k == "index"@ || k == "message"@ || k == "finish_reason"@ || k == "logprobs"@ {
        FieldClass::BaseOnly
    } else if k == "content_filter_results"@ {
        FieldClass::ExtensionOnly
    } else {
        FieldClass::Unknown
    }
}

/// Classifies a top-level response field name.
pub fn classify_top_level(k: &String) -> (r: FieldClass)
    ensures
        r == spec_classify_top_level(k@),
{
    if str_eq_lit(k, "id") || str_eq_lit(k, "choices") || str_eq_lit(k, "created")
        || str_eq_lit(k, "model") || str_eq_lit(k, "object") || str_eq_lit(k, "service_tier")
        || str_eq_lit(k, "system_fingerprint") || str_eq_lit(k, "usage") {
        FieldClass::BaseOnly
    } else if str_eq_lit(k, "prompt_filter_results") {
        FieldClass::ExtensionOnly
    } else {
        FieldClass::Unknown
    }
}

/// Classifies a field name inside one element of the choices array.
pub fn classify_choice_field(k: &String) -> (r: FieldClass)
    ensures
        r == spec_classify_choice_field(k@),
{
    if str_eq_lit(k, "index") || str_eq_lit(k, "message") || str_eq_lit(k, "finish_reason")
        || str_eq_lit(k, "logprobs") {
        FieldClass::BaseOnly
    } else if str_eq_lit(k, "content_filter_results") {
        FieldClass::ExtensionOnly
    } else {
        FieldClass::Unknown
    }
}

} // verus!
