//! `fs_read`: the text of a file.

use crate::conversation_message::message::{
    text_message, text_message_view, Message, MessageType, MessageView,
};
use crate::text::{json_quote, json_string_literal};
use crate::tools::common::{
    new_property, property_view, tool_answer, tool_answer_view, tool_error_answer,
    tool_error_answer_view, Tool, ToolCallResponseStatus, ToolParameterSchema,
    ToolParameterSchemaView, ToolParameters, ToolProperty,
};
use crate::tools::descriptions::READ_DESCRIPTION;
use crate::tools::error::{Error, ErrorView};
use crate::tools::fs::common::{tilde_outcome, FsUtils};
use vstd::prelude::*;
use vstd::string::StringExecFns;

verus! {

/// The tool that reads a text file.
pub struct Read;

impl Read {
    pub fn new() -> Self {
        Read
    }
}

impl Tool for Read {
    open spec fn spec_name() -> Seq<char> {
        "fs_read"@
    }

    open spec fn spec_descriptions() -> Seq<char> {
        READ_DESCRIPTION@
    }

    open spec fn spec_parameter_schema() -> ToolParameterSchemaView {
        ToolParameterSchemaView {
            schema_type: "object"@,
            properties: seq![
                property_view("path"@, "string"@, "The file to read. Both relative and absolute paths are allowed."@, None)
            ],
            required: seq!["path"@],
            additional_properties: false,
        }
    }

    open spec fn spec_strict() -> bool {
        true
    }

    fn get_name() -> (r: String) {
        String::from_str("fs_read")
    }

    fn get_descriptions() -> (r: String) {
        String::from_str(READ_DESCRIPTION)
    }

    fn get_parameter_schema() -> (r: ToolParameterSchema) {
        let mut properties: Vec<ToolProperty> = Vec::new();
        properties.push(new_property("path", "string", "The file to read. Both relative and absolute paths are allowed."));
        let mut required: Vec<String> = Vec::new();
        required.push(String::from_str("path"));
        let r = ToolParameterSchema {
            schema_type: String::from_str("object"),
            properties,
            required,
            additional_properties: false,
        };
        assert(r@.properties =~= Self::spec_parameter_schema().properties);
        assert(r@.required =~= Self::spec_parameter_schema().required);
        r
    }

    fn get_strict() -> (r: bool) {
        true
    }
}

/// The parameters of `fs_read`: the file to read.
#[derive(Debug)]
pub struct ReadParameters {
    pub path: String,
}

impl ToolParameters for ReadParameters {
    open spec fn spec_parse_failure() -> MessageView {
        text_message_view(MessageType::ToolCallResponse, "invalid parameter format"@, None)
    }

    fn from_parsed(parsed: Option<Self>) -> (r: Result<Box<Self>, Message>) {
        match parsed {
            Some(p) => Ok(Box::new(p)),
            None => Err(text_message(MessageType::ToolCallResponse, "invalid parameter format", None)),
        }
    }
}

/// The answer to an `fs_read` call with id `id`, given the file's text or
/// the error reading it; like every tool's answer it carries the call's id.
pub open spec fn read_answer_view(id: Seq<char>, content: Result<Seq<char>, ErrorView>) -> MessageView {
    match content {
        Ok(text) => tool_answer_view(
            id,
            <Read as Tool>::spec_name(),
            ToolCallResponseStatus::Success,
            json_string_literal(text),
            Some(id),
        ),
        Err(e) => tool_error_answer_view(id, <Read as Tool>::spec_name(), e, Some(id)),
    }
}

impl Read {
    /// The path to read: the parameter with a leading tilde expanded.
    pub fn target_path(parameters: &ReadParameters) -> (r: String)
        ensures
            tilde_outcome(parameters.path@, r@),
    {
        FsUtils::expand_tilde(parameters.path.as_str())
    }

    /// The answer to an `fs_read` call, given the file's text or the error
    /// reading it.
    pub fn finish(id: String, content: Result<String, Error>) -> (r: Message)
        ensures
            r@ == read_answer_view(
                id@,
                match content {
                    Ok(t) => Ok(t@),
                    Err(e) => Err(e@),
                },
            ),
    {
        match content {
            Ok(text) => tool_answer(
                id.clone(),
                Self::get_name(),
                ToolCallResponseStatus::Success,
                json_quote(text.as_str()),
                Some(id),
            ),
            Err(e) => tool_error_answer(id.clone(), Self::get_name(), &e, Some(id)),
        }
    }
}

} // verus!
