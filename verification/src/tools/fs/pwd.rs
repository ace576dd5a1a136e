//! `fs_pwd`: the agent's working directory.

use crate::conversation_message::message::{
    text_message, text_message_view, Message, MessageType, MessageView,
};
use crate::text::{json_quote, json_string_literal};
use crate::tools::common::{
    empty_object_schema, tool_answer, tool_answer_view, tool_error_answer, tool_error_answer_view,
    Tool, ToolCallResponseStatus, ToolParameterSchema, ToolParameterSchemaView, ToolParameters,
};
use crate::tools::descriptions::PWD_DESCRIPTION;
use crate::tools::error::{Error, ErrorView};
use vstd::prelude::*;
use vstd::string::StringExecFns;

verus! {

/// The tool that reports the working directory.
pub struct Pwd;

impl Pwd {
    pub fn new() -> Self {
        Pwd
    }
}

impl Tool for Pwd {
    open spec fn spec_name() -> Seq<char> {
        "fs_pwd"@
    }

    open spec fn spec_descriptions() -> Seq<char> {
        PWD_DESCRIPTION@
    }

    open spec fn spec_parameter_schema() -> ToolParameterSchemaView {
        ToolParameterSchemaView {
            schema_type: "object"@,
            properties: Seq::empty(),
            required: Seq::empty(),
            additional_properties: false,
        }
    }

    open spec fn spec_strict() -> bool {
        true
    }

    fn get_name() -> (r: String) {
        String::from_str("fs_pwd")
    }

    fn get_descriptions() -> (r: String) {
        String::from_str(PWD_DESCRIPTION)
    }

    fn get_parameter_schema() -> (r: ToolParameterSchema) {
        empty_object_schema()
    }

    fn get_strict() -> (r: bool) {
        true
    }
}

/// `fs_pwd` takes no parameters.
#[derive(Debug)]
pub struct PwdParameters {}

impl ToolParameters for PwdParameters {
    open spec fn spec_parse_failure() -> MessageView {
        text_message_view(MessageType::System, "invalid parameter format"@, None)
    }

    fn from_parsed(parsed: Option<Self>) -> (r: Result<Box<Self>, Message>) {
        match parsed {
            Some(p) => Ok(Box::new(p)),
            None => Err(text_message(MessageType::System, "invalid parameter format", None)),
        }
    }
}

/// The message of a serialisation error for a path that is not UTF-8.
pub open spec fn non_utf8_path_error() -> ErrorView {
    ErrorView::JsonError("path contains invalid UTF-8 characters"@)
}

/// The answer to an `fs_pwd` call with id `id`, given what the working
/// directory lookup gave: the path, `None` for a path that is not UTF-8,
/// or the lookup's error.
pub open spec fn pwd_answer_view(id: Seq<char>, cwd: Result<Option<Seq<char>>, ErrorView>) -> MessageView {
    match cwd {
        Ok(Some(path)) => tool_answer_view(
            id,
            <Pwd as Tool>::spec_name(),
            ToolCallResponseStatus::Success,
            json_string_literal(path),
            Some(id),
        ),
        Ok(None) => tool_error_answer_view(id, <Pwd as Tool>::spec_name(), non_utf8_path_error(), Some(id)),
        Err(e) => tool_error_answer_view(id, <Pwd as Tool>::spec_name(), e, Some(id)),
    }
}

impl Pwd {
    /// The answer to an `fs_pwd` call, given the working directory lookup's
    /// outcome: the path, `None` where it is not UTF-8, or the error.
    pub fn finish(id: String, cwd: Result<Option<String>, Error>) -> (r: Message)
        ensures
            r@ == pwd_answer_view(
                id@,
                match cwd {
                    Ok(Some(p)) => Ok(Some(p@)),
                    Ok(None) => Ok(None),
                    Err(e) => Err(e@),
                },
            ),
    {
        match cwd {
            Ok(Some(path)) => tool_answer(
                id.clone(),
                Self::get_name(),
                ToolCallResponseStatus::Success,
                json_quote(path.as_str()),
                Some(id),
            ),
            Ok(None) => {
                let e = Error::JsonError(String::from_str("path contains invalid UTF-8 characters"));
                tool_error_answer(id.clone(), Self::get_name(), &e, Some(id))
            },
            Err(e) => tool_error_answer(id.clone(), Self::get_name(), &e, Some(id)),
        }
    }
}

} // verus!
