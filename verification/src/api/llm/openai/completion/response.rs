//! The chat completion response of the OpenAI API.

use crate::api::llm::openai::completion::common::OpenAICompletionMessage;
use vstd::prelude::*;

verus! {

/// A chat completion: its id, model, object type ("chat.completion"),
/// creation timestamp, choices and token usage.
#[derive(Debug)]
pub struct OpenAICompletionResponse {
    pub id: String,
    pub model: String,
    pub object: String,
    pub created: u64,
    pub choices: Vec<OpenAICompletionResponseChoice>,
    pub usage: OpenAICompletionResponseUsage,
}

/// One answer of the model.
#[derive(Debug)]
pub struct OpenAICompletionResponseChoice {
    pub finish_reason: Option<OpenAICompletionResponseChoiceFinishReason>,
    pub index: u32,
    pub message: OpenAICompletionMessage,
}

/// Why the model stopped.
#[derive(Clone, Copy, Debug, PartialEq, Eq, Structural)]
pub enum OpenAICompletionResponseChoiceFinishReason {
    Stop,
    Length,
    ContentFilter,
    ToolCalls,
}

/// Token counts of a completion.
#[derive(Clone, Copy, Debug, PartialEq, Eq, Structural)]
pub struct OpenAICompletionResponseUsage {
    pub prompt_tokens: u32,
    pub completion_tokens: u32,
    pub total_tokens: u32,
}

} // verus!
