//! The decode error taxonomy. Every error is terminal for the decode call
//! that produced it; the decoder never recovers locally.

use vstd::prelude::*;

verus! {

/// The JSON kind (or closed value set) a field was expected to hold.
#[derive(Debug, Clone, Copy, PartialEq, Eq, Structural)]
pub enum ExpectedKind {
    Bool,
    Int,
    Str,
    Arr,
    Obj,
    /// One of the finish-reason literals.
    FinishReasonName,
    /// One of the service-tier literals.
    ServiceTierName,
}

/// Why a decode failed.
#[derive(Debug, Clone, PartialEq)]
pub enum DecodeError {
    /// The document bytes were not valid JSON. Produced by the tokenization
    /// layer that turns raw bytes into a tree, never by the tree decoder.
    MalformedJson,
    /// A base-required field was absent.
    MissingRequiredField(String),
    /// The same key occurred twice in one object.
    DuplicateField(String),
    /// The extension choice list and the base choice list differ in length.
    CardinalityMismatch { base_len: usize, extension_len: usize },
    /// A field's value did not match the expected JSON kind.
    TypeMismatch { field: String, expected_kind: ExpectedKind },
    /// The filtering-outcome union matched neither known shape.
    UnsupportedSchemaShape,
}

/// The mathematical model of a [`DecodeError`].
#[verifier::ext_equal]
pub enum DecodeErrorV {
    MalformedJson,
    MissingRequiredField(Seq<char>),
    DuplicateField(Seq<char>),
    CardinalityMismatch { base_len: int, extension_len: int },
    TypeMismatch { field: Seq<char>, expected_kind: ExpectedKind },
    UnsupportedSchemaShape,
}

impl View for DecodeError {
    type V = DecodeErrorV;

    open spec fn view(&self) -> DecodeErrorV {
        match self {
            DecodeError::MalformedJson => DecodeErrorV::MalformedJson,
            DecodeError::MissingRequiredField(f) => DecodeErrorV::MissingRequiredField(f@),
            DecodeError::DuplicateField(f) => DecodeErrorV::DuplicateField(f@),
            DecodeError::CardinalityMismatch { base_len, extension_len } =>
                DecodeErrorV::CardinalityMismatch {
                    base_len: *base_len as int,
                    extension_len: *extension_len as int,
                },
            DecodeError::TypeMismatch { field, expected_kind } => DecodeErrorV::TypeMismatch {
                field: field@,
                expected_kind: *expected_kind,
            },
            DecodeError::UnsupportedSchemaShape => DecodeErrorV::UnsupportedSchemaShape,
        }
    }
}

/// The element-wise model of an optional value.
pub open spec fn opt_view<T: View>(o: Option<T>) -> Option<T::V> {
    match o {
        Some(t) => Some(t@),
        None => None,
    }
}

/// The model of a `Result` whose sides both have models.
pub open spec fn result_view<T: View, E: View>(r: Result<T, E>) -> Result<T::V, E::V> {
    match r {
        Ok(t) => Ok(t@),
        Err(e) => Err(e@),
    }
}

} // verus!
