//! The Merged Record: the base response with each choice's filtering
//! extension inlined positionally, plus top-level extension fields.

use vstd::prelude::*;
use crate::json::{Json, JsonV};
use crate::types::chat::{ChatChoiceV as BaseChatChoiceV, CompletionUsage, FinishReason, ServiceTierResponse};
use crate::types::content_filtering::{
    ChoiceResults, ContentFilterResults, ContentFilteringResultsV, PromptFilterResults,
    PromptFilterResultsV,
};

verus! {

/// One choice of a Merged Record: the base fields together with the
/// choice-level filtering outcome, when the extension schema is in effect.
#[derive(Debug, PartialEq)]
pub struct ChatChoice {
    /// The index of the choice in the list of choices.
    pub index: u32,
    /// The response message payload; always a JSON object.
    pub message: Json,
    /// The reason the model stopped generating tokens.
    pub finish_reason: Option<FinishReason>,
    /// Log probability information for the choice, kept verbatim.
    pub logprobs: Option<Json>,
    /// The choice-level filtering outcome, absent when the document carried
    /// no extension fields.
    pub content_filter_results: Option<ContentFilterResults>,
}

/// The mathematical model of a merged [`ChatChoice`].
#[verifier::ext_equal]
pub struct ChatChoiceV {
    pub index: u32,
    pub message: JsonV,
    pub finish_reason: Option<FinishReason>,
    pub logprobs: Option<JsonV>,
    pub content_filter_results: Option<ContentFilteringResultsV<ChoiceResults>>,
}

impl View for ChatChoice {
    type V = ChatChoiceV;

    open spec fn view(&self) -> ChatChoiceV {
        ChatChoiceV {
            index: self.index,
            message: self.message@,
            finish_reason: self.finish_reason,
            logprobs: match self.logprobs {
                Some(l) => Some(l@),
                None => None,
            },
            content_filter_results: match self.content_filter_results {
                Some(c) => Some(c@),
                None => None,
            },
        }
    }
}

impl ChatChoiceV {
    /// The base-schema part of a merged choice.
    pub open spec fn base(self) -> BaseChatChoiceV {
        BaseChatChoiceV {
            index: self.index,
            message: self.message,
            finish_reason: self.finish_reason,
            logprobs: self.logprobs,
        }
    }
}

/// A chat completion response in merged form: every base field, plus the
/// extension fields spliced into place.
#[derive(Debug, PartialEq)]
pub struct CreateChatCompletionResponse {
    /// A unique identifier for the chat completion.
    pub id: String,
    /// The merged chat completion choices, in document order.
    pub choices: Vec<ChatChoice>,
    /// The Unix timestamp (in seconds) of when the completion was created.
    pub created: u32,
    /// The model used for the chat completion.
    pub model: String,
    /// The service tier used for processing the request.
    pub service_tier: Option<ServiceTierResponse>,
    /// The backend configuration fingerprint, when reported.
    pub system_fingerprint: Option<String>,
    /// The object type.
    pub object: String,
    pub usage: Option<CompletionUsage>,
    /// Prompt-level filtering results; cardinality is independent of the
    /// choice list.
    pub prompt_filter_results: Option<Vec<PromptFilterResults>>,
}

/// The mathematical model of a merged [`CreateChatCompletionResponse`].
#[verifier::ext_equal]
pub struct CreateChatCompletionResponseV {
    pub id: Seq<char>,
    pub choices: Seq<ChatChoiceV>,
    pub created: u32,
    pub model: Seq<char>,
    pub service_tier: Option<ServiceTierResponse>,
    pub system_fingerprint: Option<Seq<char>>,
    pub object: Seq<char>,
    pub usage: Option<CompletionUsage>,
    pub prompt_filter_results: Option<Seq<PromptFilterResultsV>>,
}

/// The element-wise model of a sequence of viewable values.
pub open spec fn seq_view<T: View>(s: Seq<T>) -> Seq<T::V> {
    Seq::new(s.len(), |i: int| s[i]@)
}

impl View for CreateChatCompletionResponse {
    type V = CreateChatCompletionResponseV;

    open spec fn view(&self) -> CreateChatCompletionResponseV {
        CreateChatCompletionResponseV {
            id: self.id@,
            choices: seq_view(self.choices@),
            created: self.created,
            model: self.model@,
            service_tier: self.service_tier,
            system_fingerprint: match self.system_fingerprint {
                Some(s) => Some(s@),
                None => None,
            },
            object: self.object@,
            usage: self.usage,
            prompt_filter_results: match self.prompt_filter_results {
                Some(p) => Some(seq_view(p@)),
                None => None,
            },
        }
    }
}

} // verus!
