//! The chat completion request of the OpenAI API, and the tool definitions
//! it carries.

use crate::api::llm::openai::completion::common::OpenAICompletionMessage;
use crate::tools::common::{ToolParameterSchema, ToolParameterSchemaView};
use vstd::prelude::*;

verus! {

/// A chat completion request.  The sampling temperature, a float, is left
/// to the code that sends the request; this library never sets it.
pub struct OpenAICompletionRequest {
    pub model: String,
    pub messages: Vec<OpenAICompletionMessage>,
    pub n: Option<u32>,
    pub max_completion_tokens: Option<u64>,
    pub max_tokens: Option<u64>,
    pub tools: Option<Vec<OpenAITool>>,
    pub tool_choice: Option<OpenAIToolChoice>,
    pub parallel_tool_calls: Option<bool>,
}

/// A tool offered to the model; its type is always "function".
pub struct OpenAITool {
    pub tool_type: String,
    pub function: OpenAIFunction,
}

/// The function behind a tool: name, description, parameter schema and
/// whether the schema is strict.
pub struct OpenAIFunction {
    pub name: String,
    pub description: Option<String>,
    pub parameters: ToolParameterSchema,
    pub strict: Option<bool>,
}

pub struct OpenAIToolView {
    pub tool_type: Seq<char>,
    pub name: Seq<char>,
    pub description: Option<Seq<char>>,
    pub parameters: ToolParameterSchemaView,
    pub strict: Option<bool>,
}

impl View for OpenAITool {
    type V = OpenAIToolView;

    open spec fn view(&self) -> OpenAIToolView {
        OpenAIToolView {
            tool_type: self.tool_type@,
            name: self.function.name@,
            description: match self.function.description {
                Some(d) => Some(d@),
                None => None,
            },
            parameters: self.function.parameters@,
            strict: self.function.strict,
        }
    }
}

/// Which tool the model may or must call.
pub enum OpenAIToolChoice {
    Simple(OpenAISimpleToolChoice),
    Tool { tool_type: String, function: OpenAIToolChoiceFunction },
}

/// No tool (`NoTool`, sent as "none"), any tool, or some tool.
#[derive(Clone, Copy, Debug, PartialEq, Eq, Structural)]
pub enum OpenAISimpleToolChoice {
    NoTool,
    Auto,
    Required,
}

/// The one function the model must call.
pub struct OpenAIToolChoiceFunction {
    pub name: String,
}

} // verus!
