//! `fs_write`: writing text to a file.

use crate::conversation_message::message::{
    text_message, text_message_view, Message, MessageType, MessageView,
};
use crate::text::{decimal, decimal_string};
use crate::tools::common::{
    new_property, property_view, tool_answer, tool_answer_view, tool_error_answer,
    tool_error_answer_view, Tool, ToolCallResponseStatus, ToolParameterSchema,
    ToolParameterSchemaView, ToolParameters, ToolProperty,
};
use crate::tools::descriptions::WRITE_DESCRIPTION;
use crate::tools::error::{Error, ErrorView};
use vstd::prelude::*;
use vstd::string::StringExecFns;

verus! {

/// The tool that writes a text file.
pub struct Write;

impl Write {
    pub fn new() -> Self {
        Write
    }
}

impl Tool for Write {
    open spec fn spec_name() -> Seq<char> {
        "fs_write"@
    }

    open spec fn spec_descriptions() -> Seq<char> {
        WRITE_DESCRIPTION@
    }

    open spec fn spec_parameter_schema() -> ToolParameterSchemaView {
        ToolParameterSchemaView {
            schema_type: "object"@,
            properties: seq![
                property_view("path"@, "string"@, "The file to write to. Both relative and absolute paths are allowed."@, None),
                property_view("mode"@, "string"@, "Append mode: Add <contents> to the end of the file; does not overwrite existing data. Write mode: Erase any existing data and write <contents> to the file."@, Some(seq!["append"@, "write"@])),
                property_view("create"@, "boolean"@, "Whether to create the file if it does not exist."@, None),
                property_view("contents"@, "string"@, "The data to write."@, None)
            ],
            required: seq!["path"@, "mode"@, "create"@, "contents"@],
            additional_properties: false,
        }
    }

    open spec fn spec_strict() -> bool {
        true
    }

    fn get_name() -> (r: String) {
        String::from_str("fs_write")
    }

    fn get_descriptions() -> (r: String) {
        String::from_str(WRITE_DESCRIPTION)
    }

    fn get_parameter_schema() -> (r: ToolParameterSchema) {
        let mut properties: Vec<ToolProperty> = Vec::new();
        properties.push(new_property("path", "string", "The file to write to. Both relative and absolute paths are allowed."));
        let mut allowed: Vec<String> = Vec::new();
        allowed.push(String::from_str("append"));
        allowed.push(String::from_str("write"));
        let mut property = new_property("mode", "string", "Append mode: Add <contents> to the end of the file; does not overwrite existing data. Write mode: Erase any existing data and write <contents> to the file.");
        property.allowed_values = Some(allowed);
        assert(property@.allowed_values == Some(seq!["append"@, "write"@])) by {
            assert(allowed@.map_values(|s: String| s@) =~= seq!["append"@, "write"@]);
        }
        properties.push(property);
        properties.push(new_property("create", "boolean", "Whether to create the file if it does not exist."));
        properties.push(new_property("contents", "string", "The data to write."));
        let mut required: Vec<String> = Vec::new();
        required.push(String::from_str("path"));
        required.push(String::from_str("mode"));
        required.push(String::from_str("create"));
        required.push(String::from_str("contents"));
        let r = ToolParameterSchema {
            schema_type: String::from_str("object"),
            properties,
            required,
            additional_properties: false,
        };
        assert(r@.properties =~= Self::spec_parameter_schema().properties);
        assert(r@.required =~= Self::spec_parameter_schema().required);
        r
    }

    fn get_strict() -> (r: bool) {
        true
    }
}

/// The parameters of `fs_write`: the file, the mode, whether to create it, and the text.
#[derive(Debug)]
pub struct WriteParameters {
    pub path: String,
    pub mode: WriteMode,
    pub create: bool,
    pub contents: String,
}

/// Append to the file, or replace what it holds.
#[derive(Clone, Copy, Debug, PartialEq, Eq, Structural)]
pub enum WriteMode {
    Append,
    Write,
}

impl ToolParameters for WriteParameters {
    open spec fn spec_parse_failure() -> MessageView {
        text_message_view(MessageType::System, "invalid parameter format"@, None)
    }

    fn from_parsed(parsed: Option<Self>) -> (r: Result<Box<Self>, Message>) {
        match parsed {
            Some(p) => Ok(Box::new(p)),
            None => Err(text_message(MessageType::System, "invalid parameter format", None)),
        }
    }
}

/// The options the file is opened with.
#[derive(Clone, Copy, Debug, PartialEq, Eq, Structural)]
pub struct OpenFlags {
    pub create: bool,
    pub append: bool,
    pub write: bool,
    pub truncate: bool,
}

/// The JSON content of a successful write: the number of bytes written.
pub open spec fn bytes_written_json(n: nat) -> Seq<char> {
    "{\"bytes_written\":"@ + decimal(n) + "}"@
}

/// The answer to an `fs_write` call with id `id` that wrote `contents`,
/// given the write's outcome.
pub open spec fn write_answer_view(id: Seq<char>, contents_bytes: nat, outcome: Result<(), ErrorView>) -> MessageView {
    match outcome {
        Ok(()) => tool_answer_view(
            id,
            <Write as Tool>::spec_name(),
            ToolCallResponseStatus::Success,
            bytes_written_json(contents_bytes),
            Some(id),
        ),
        Err(e) => tool_error_answer_view(id, <Write as Tool>::spec_name(), e, Some(id)),
    }
}

impl Write {
    /// The options for opening the file: create it if asked; append, or
    /// write from the start after truncating.
    pub fn open_flags(parameters: &WriteParameters) -> (r: OpenFlags)
        ensures
            r.create == parameters.create,
            r.append == (parameters.mode == WriteMode::Append),
            r.write == (parameters.mode == WriteMode::Write),
            r.truncate == (parameters.mode == WriteMode::Write),
    {
        match parameters.mode {
            WriteMode::Append => OpenFlags {
                create: parameters.create,
                append: true,
                write: false,
                truncate: false,
            },
            WriteMode::Write => OpenFlags {
                create: parameters.create,
                append: false,
                write: true,
                truncate: true,
            },
        }
    }

    /// The answer to an `fs_write` call, given the contents it was to write
    /// and the outcome of the write.
    pub fn finish(id: String, contents: &str, outcome: Result<(), Error>) -> (r: Message)
        ensures
            r@ == write_answer_view(
                id@,
                contents.len() as nat,
                match outcome {
                    Ok(()) => Ok(()),
                    Err(e) => Err(e@),
                },
            ),
    {
        match outcome {
            Ok(()) => {
                let n = contents.len();
                let mut content = String::from_str("{\"bytes_written\":");
                content.append(decimal_string(n as u64).as_str());
                content.append("}");
                tool_answer(
                    id.clone(),
                    Self::get_name(),
                    ToolCallResponseStatus::Success,
                    content,
                    Some(id),
                )
            },
            Err(e) => tool_error_answer(id.clone(), Self::get_name(), &e, Some(id)),
        }
    }
}

} // verus!
