//! Offering a tool to the model as an OpenAI function.

use crate::api::llm::openai::completion::request::{OpenAIFunction, OpenAITool, OpenAIToolView};
use crate::tools::common::Tool;
use vstd::prelude::*;
use vstd::string::StringExecFns;

verus! {

/// The OpenAI tool definition of a tool: a function with the tool's name,
/// description, parameter schema and strictness.
pub open spec fn openai_tool_of<T: Tool>() -> OpenAIToolView {
    OpenAIToolView {
        tool_type: "function"@,
        name: T::spec_name(),
        description: Some(T::spec_descriptions()),
        parameters: T::spec_parameter_schema(),
        strict: Some(T::spec_strict()),
    }
}

/// A tool that can be offered to the model.
pub trait IntoOpenAITool: Tool + Sized {
    fn into_openai_tool(self) -> (r: OpenAITool)
        ensures
            r@ == openai_tool_of::<Self>(),
    ;
}

impl<T: Tool> IntoOpenAITool for T {
    fn into_openai_tool(self) -> (r: OpenAITool) {
        OpenAITool {
            tool_type: String::from_str("function"),
            function: OpenAIFunction {
                name: T::get_name(),
                description: Some(T::get_descriptions()),
                parameters: T::get_parameter_schema(),
                strict: Some(T::get_strict()),
            },
        }
    }
}

} // verus!
