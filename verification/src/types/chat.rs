//! Base-schema chat types: the canonical request and response shapes
//! without any content-filtering extension fields.

use vstd::prelude::*;
use crate::json::{Json, JsonV};

verus! {

#[derive(Debug, Clone, PartialEq)]
pub enum Prompt {
    String(String),
    StringArray(Vec<String>),
    IntegerArray(Vec<u16>),
    ArrayOfIntegerArray(Vec<Vec<u16>>),
}

#[derive(Debug, Clone, PartialEq)]
pub enum Stop {
    String(String),
    StringArray(Vec<String>),
}

#[derive(Debug, Clone, Copy, PartialEq)]
pub enum CompletionFinishReason {
    Stop,
    Length,
    ContentFilter,
}

#[derive(Debug, Clone, PartialEq)]
pub enum ChatCompletionFunctionCall {
    /// The model does not call a function, and responds to the end-user.
    NoCall,
    /// The model can pick between an end-user or calling a function.
    Auto,
    /// Forces the model to call the specified function.
    Function { name: String },
}

#[derive(Debug, Clone, Copy, PartialEq)]
pub enum Role {
    System,
    User,
    Assistant,
    Tool,
    Function,
}

/// The name and arguments of a function that should be called, as generated
/// by the model.
#[derive(Debug, Clone, PartialEq)]
pub struct FunctionCall {
    pub name: String,
    pub arguments: String,
}

/// Usage statistics for the completion request.
#[derive(Debug, Clone, Copy, PartialEq, Eq, Structural)]
pub struct CompletionUsage {
    /// Number of tokens in the prompt.
    pub prompt_tokens: u32,
    /// Number of tokens in the generated completion.
    pub completion_tokens: u32,
    /// Total number of tokens used in the request (prompt + completion).
    pub total_tokens: u32,
}

#[derive(Debug, Clone, PartialEq)]
pub struct ChatCompletionRequestSystemMessage {
    pub content: ChatCompletionRequestSystemMessageContent,
    pub name: Option<String>,
}

#[derive(Debug, Clone, PartialEq)]
pub struct ChatCompletionRequestMessageContentPartText {
    pub text: String,
}

#[derive(Debug, Clone, PartialEq)]
pub struct ChatCompletionRequestMessageContentPartRefusal {
    /// The refusal message generated by the model.
    pub refusal: String,
}

#[derive(Debug, Clone, Copy, PartialEq)]
pub enum ImageDetail {
    Auto,
    Low,
    High,
}

#[derive(Debug, Clone, PartialEq)]
pub struct ImageUrl {
    /// Either a URL of the image or the base64 encoded image data.
    pub url: String,
    /// Specifies the detail level of the image.
    pub detail: Option<ImageDetail>,
}

#[derive(Debug, Clone, PartialEq)]
pub struct ChatCompletionRequestMessageContentPartImage {
    pub image_url: ImageUrl,
}

#[derive(Debug, Clone, PartialEq)]
pub enum ChatCompletionRequestUserMessageContentPart {
    Text(ChatCompletionRequestMessageContentPartText),
    ImageUrl(ChatCompletionRequestMessageContentPartImage),
}

#[derive(Debug, Clone, PartialEq)]
pub enum ChatCompletionRequestSystemMessageContentPart {
    Text(ChatCompletionRequestMessageContentPartText),
}

#[derive(Debug, Clone, PartialEq)]
pub enum ChatCompletionRequestAssistantMessageContentPart {
    Text(ChatCompletionRequestMessageContentPartText),
    Refusal(ChatCompletionRequestMessageContentPartRefusal),
}

#[derive(Debug, Clone, PartialEq)]
pub enum ChatCompletionRequestToolMessageContentPart {
    Text(ChatCompletionRequestMessageContentPartText),
}

#[derive(Debug, Clone, PartialEq)]
pub enum ChatCompletionRequestSystemMessageContent {
    Text(String),
    Array(Vec<ChatCompletionRequestSystemMessageContentPart>),
}

#[derive(Debug, Clone, PartialEq)]
pub enum ChatCompletionRequestUserMessageContent {
    Text(String),
    Array(Vec<ChatCompletionRequestUserMessageContentPart>),
}

#[derive(Debug, Clone, PartialEq)]
pub enum ChatCompletionRequestAssistantMessageContent {
    Text(String),
    Array(Vec<ChatCompletionRequestAssistantMessageContentPart>),
}

#[derive(Debug, Clone, PartialEq)]
pub enum ChatCompletionRequestToolMessageContent {
    Text(String),
    Array(Vec<ChatCompletionRequestToolMessageContentPart>),
}

#[derive(Debug, Clone, PartialEq)]
pub struct ChatCompletionRequestUserMessage {
    pub content: ChatCompletionRequestUserMessageContent,
    pub name: Option<String>,
}

#[derive(Debug, Clone, PartialEq)]
pub struct ChatCompletionRequestAssistantMessage {
    pub content: Option<ChatCompletionRequestAssistantMessageContent>,
    /// The refusal message by the assistant.
    pub refusal: Option<String>,
    pub name: Option<String>,
    pub tool_calls: Option<Vec<ChatCompletionMessageToolCall>>,
    /// Superseded by `tool_calls`.
    pub function_call: Option<FunctionCall>,
}

#[derive(Debug, Clone, PartialEq)]
pub struct ChatCompletionRequestToolMessage {
    pub content: ChatCompletionRequestToolMessageContent,
    pub tool_call_id: String,
}

#[derive(Debug, Clone, PartialEq)]
pub struct ChatCompletionRequestFunctionMessage {
    /// The return value from the function call, to return to the model.
    pub content: Option<String>,
    /// The name of the function to call.
    pub name: String,
}

#[derive(Debug, Clone, PartialEq)]
pub enum ChatCompletionRequestMessage {
    System(ChatCompletionRequestSystemMessage),
    User(ChatCompletionRequestUserMessage),
    Assistant(ChatCompletionRequestAssistantMessage),
    Tool(ChatCompletionRequestToolMessage),
    Function(ChatCompletionRequestFunctionMessage),
}

#[derive(Debug, Clone, PartialEq)]
pub struct ChatCompletionMessageToolCall {
    /// The ID of the tool call.
    pub id: String,
    /// The type of the tool. Currently, only `function` is supported.
    pub kind: ChatCompletionToolType,
    /// The function that the model called.
    pub function: FunctionCall,
}

/// A chat completion message generated by the model.
#[derive(Debug, Clone, PartialEq)]
pub struct ChatCompletionResponseMessage {
    pub content: Option<String>,
    pub refusal: Option<String>,
    pub tool_calls: Option<Vec<ChatCompletionMessageToolCall>>,
    pub role: Role,
    /// Superseded by `tool_calls`.
    pub function_call: Option<FunctionCall>,
}

#[derive(Debug, Clone, Copy, PartialEq)]
pub enum ChatCompletionToolType {
    Function,
}

#[derive(Debug, Clone, PartialEq)]
pub struct FunctionName {
    /// The name of the function to call.
    pub name: String,
}

/// Specifies a tool the model should use, to force a particular function.
#[derive(Debug, Clone, PartialEq)]
pub struct ChatCompletionNamedToolChoice {
    pub kind: ChatCompletionToolType,
    pub function: FunctionName,
}

/// Controls which (if any) tool is called by the model.
#[derive(Debug, Clone, PartialEq)]
pub enum ChatCompletionToolChoiceOption {
    NoTool,
    Auto,
    Required,
    Named(ChatCompletionNamedToolChoice),
}

#[derive(Debug, Clone, Copy, PartialEq)]
pub enum ServiceTier {
    Auto,
    Default,
}

#[derive(Debug, Clone, Copy, PartialEq, Eq, Structural)]
pub enum ServiceTierResponse {
    Scale,
    Default,
}

/// Options for streaming responses.
#[derive(Debug, Clone, Copy, PartialEq)]
pub struct ChatCompletionStreamOptions {
    pub include_usage: bool,
}

#[derive(Debug, Clone, Copy, PartialEq, Eq, Structural)]
pub enum FinishReason {
    Stop,
    Length,
    ToolCalls,
    ContentFilter,
    FunctionCall,
}

#[derive(Debug, Clone, PartialEq)]
pub struct FunctionCallStream {
    pub name: Option<String>,
    pub arguments: Option<String>,
}

#[derive(Debug, Clone, PartialEq)]
pub struct ChatCompletionMessageToolCallChunk {
    pub index: i32,
    pub id: Option<String>,
    pub kind: Option<ChatCompletionToolType>,
    pub function: Option<FunctionCallStream>,
}

/// A chat completion delta generated by streamed model responses.
#[derive(Debug, Clone, PartialEq)]
pub struct ChatCompletionStreamResponseDelta {
    pub content: Option<String>,
    pub function_call: Option<FunctionCallStream>,
    pub tool_calls: Option<Vec<ChatCompletionMessageToolCallChunk>>,
    pub role: Option<Role>,
    pub refusal: Option<String>,
}

/// One generated alternative of the base schema. The message payload and the
/// log-probability detail are carried verbatim as JSON subtrees.
#[derive(Debug, PartialEq)]
pub struct ChatChoice {
    /// The index of the choice in the list of choices.
    pub index: u32,
    /// The response message payload; always a JSON object.
    pub message: Json,
    /// The reason the model stopped generating tokens.
    pub finish_reason: Option<FinishReason>,
    /// Log probability information for the choice, kept verbatim.
    pub logprobs: Option<Json>,
}

/// The mathematical model of a base [`ChatChoice`].
#[verifier::ext_equal]
pub struct ChatChoiceV {
    pub index: u32,
    pub message: JsonV,
    pub finish_reason: Option<FinishReason>,
    pub logprobs: Option<JsonV>,
}

impl View for ChatChoice {
    type V = ChatChoiceV;

    open spec fn view(&self) -> ChatChoiceV {
        ChatChoiceV {
            index: self.index,
            message: self.message@,
            finish_reason: self.finish_reason,
            logprobs: match self.logprobs {
                Some(l) => Some(l@),
                None => None,
            },
        }
    }
}

/// A base-schema chat completion response, before any extension fields.
#[derive(Debug, PartialEq)]
pub struct CreateChatCompletionResponse {
    /// A unique identifier for the chat completion.
    pub id: String,
    /// The chat completion choices, in document order.
    pub choices: Vec<ChatChoice>,
    /// The Unix timestamp (in seconds) of when the completion was created.
    pub created: u32,
    /// The model used for the chat completion.
    pub model: String,
    /// The service tier used for processing the request.
    pub service_tier: Option<ServiceTierResponse>,
    /// The backend configuration fingerprint, when reported.
    pub system_fingerprint: Option<String>,
    /// The object type.
    pub object: String,
    pub usage: Option<CompletionUsage>,
}

} // verus!
