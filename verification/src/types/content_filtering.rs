//! Content-filtering extension types: the vendor-specific fields that the
//! augmented schema layers onto the base response.

use vstd::prelude::*;

verus! {

/// The filtering outcome for one piece of content: either a structured
/// severity/detection report, or an error report from the filtering backend.
/// The wire format carries no type tag; the two shapes are told apart
/// structurally by the decoder.
#[derive(Debug, Clone, PartialEq)]
pub enum ContentFilteringResults<T> {
    Success(T),
    Failure(Error),
}

/// An error report from the content-filtering backend.
#[derive(Debug, Clone, PartialEq)]
pub struct Error {
    pub code: String,
    pub message: String,
}

/// The mathematical model of an [`Error`].
#[verifier::ext_equal]
pub struct ErrorV {
    pub code: Seq<char>,
    pub message: Seq<char>,
}

impl View for Error {
    type V = ErrorV;

    open spec fn view(&self) -> ErrorV {
        ErrorV { code: self.code@, message: self.message@ }
    }
}

/// The model of a filtering outcome whose success payload models itself.
#[verifier::ext_equal]
pub enum ContentFilteringResultsV<T> {
    Success(T),
    Failure(ErrorV),
}

impl<T: View> View for ContentFilteringResults<T> {
    type V = ContentFilteringResultsV<T::V>;

    open spec fn view(&self) -> ContentFilteringResultsV<T::V> {
        match self {
            ContentFilteringResults::Success(t) => ContentFilteringResultsV::Success(t@),
            ContentFilteringResults::Failure(e) => ContentFilteringResultsV::Failure(e@),
        }
    }
}

/// Severity classification of filtered content.
#[derive(Debug, Clone, Copy, PartialEq, Eq, Structural)]
pub enum Severity {
    Safe,
    Low,
    Medium,
    High,
}

/// A per-category severity report.
#[derive(Debug, Clone, Copy, PartialEq, Eq, Structural)]
pub struct SeverityResult {
    pub filtered: bool,
    pub severity: Option<Severity>,
}

/// A per-category detection report.
#[derive(Debug, Clone, Copy, PartialEq, Eq, Structural)]
pub struct DetectedResult {
    pub filtered: bool,
    pub detected: bool,
}

/// The filtering categories shared by prompt-level and choice-level reports.
#[derive(Debug, Clone, Copy, PartialEq, Eq, Structural)]
pub struct BaseResults {
    pub sexual: Option<SeverityResult>,
    pub violence: Option<SeverityResult>,
    pub hate: Option<SeverityResult>,
    pub self_harm: Option<SeverityResult>,
    pub profanity: Option<DetectedResult>,
}

/// Prompt-level filtering report.
#[derive(Debug, Clone, Copy, PartialEq, Eq, Structural)]
pub struct PromptResults {
    pub results: BaseResults,
    pub jailbreak: Option<DetectedResult>,
}

/// Choice-level filtering report.
#[derive(Debug, Clone, Copy, PartialEq, Eq, Structural)]
pub struct ChoiceResults {
    pub results: BaseResults,
    pub protected_material_text: Option<DetectedResult>,
    pub protected_material_code: Option<DetectedResult>,
}

impl View for PromptResults {
    type V = PromptResults;

    open spec fn view(&self) -> PromptResults {
        *self
    }
}

impl View for ChoiceResults {
    type V = ChoiceResults;

    open spec fn view(&self) -> ChoiceResults {
        *self
    }
}

/// The per-choice filtering outcome.
pub type ContentFilterResults = ContentFilteringResults<ChoiceResults>;

/// The filtering outcome for one input prompt, with the index of the prompt
/// it applies to. The list of these is independent of the choice list.
#[derive(Debug, Clone, PartialEq)]
pub struct PromptFilterResults {
    pub prompt_index: u32,
    pub content_filter_results: ContentFilteringResults<PromptResults>,
}

/// The mathematical model of [`PromptFilterResults`].
#[verifier::ext_equal]
pub struct PromptFilterResultsV {
    pub prompt_index: u32,
    pub content_filter_results: ContentFilteringResultsV<PromptResults>,
}

impl View for PromptFilterResults {
    type V = PromptFilterResultsV;

    open spec fn view(&self) -> PromptFilterResultsV {
        PromptFilterResultsV {
            prompt_index: self.prompt_index,
            content_filter_results: self.content_filter_results@,
        }
    }
}

} // verus!
