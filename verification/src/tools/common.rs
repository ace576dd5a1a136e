//! What every tool offers: its name, its description, the schema of its
//! parameters, and the response it hands back to the model.


use crate::conversation_message::message::{
    opt_string_view, text_message_view, Message, MessageContents, MessageType, MessageView,
};
use crate::tools::error::{tool_error_text, Error};
use crate::text::{json_quote, json_string_literal};
use vstd::prelude::*;
use vstd::string::StringExecFns;

verus! {

/// A tool the model can call, described by its name, its description, the
/// schema of its parameters and whether the schema is strict.
pub trait Tool {
    spec fn spec_name() -> Seq<char>;

    spec fn spec_descriptions() -> Seq<char>;

    spec fn spec_parameter_schema() -> ToolParameterSchemaView;

    spec fn spec_strict() -> bool;

    fn get_name() -> (r: String)
        ensures
            r@ == Self::spec_name(),
    ;

    fn get_descriptions() -> (r: String)
        ensures
            r@ == Self::spec_descriptions(),
    ;

    fn get_parameter_schema() -> (r: ToolParameterSchema)
        ensures
            r@ == Self::spec_parameter_schema(),
    ;

    fn get_strict() -> (r: bool)
        ensures
            r == Self::spec_strict(),
    ;
}

/// The parameters of a tool, as decoded from the model's JSON arguments.
/// Decoding itself happens where the JSON library runs; this turns its
/// outcome into the tool's answer: the parameters, or the message that
/// tells the model its arguments could not be read.
pub trait ToolParameters: Sized {
    spec fn spec_parse_failure() -> MessageView;

    fn from_parsed(parsed: Option<Self>) -> (r: Result<Box<Self>, Message>)
        ensures
            parsed is Some ==> r is Ok && *r->Ok_0 == parsed->0,
            parsed is None ==> r is Err && r->Err_0@ == Self::spec_parse_failure(),
    ;
}

/// One property of a parameter object: its name, JSON type, description
/// and, for a string with a fixed choice, the allowed values.
pub struct ToolProperty {
    pub name: String,
    pub property_type: String,
    pub description: String,
    pub allowed_values: Option<Vec<String>>,
}

pub struct ToolPropertyView {
    pub name: Seq<char>,
    pub property_type: Seq<char>,
    pub description: Seq<char>,
    pub allowed_values: Option<Seq<Seq<char>>>,
}

impl View for ToolProperty {
    type V = ToolPropertyView;

    open spec fn view(&self) -> ToolPropertyView {
        ToolPropertyView {
            name: self.name@,
            property_type: self.property_type@,
            description: self.description@,
            allowed_values: match self.allowed_values {
                Some(v) => Some(v@.map_values(|s: String| s@)),
                None => None,
            },
        }
    }
}

/// The JSON schema of a tool's parameter object.
pub struct ToolParameterSchema {
    pub schema_type: String,
    pub properties: Vec<ToolProperty>,
    pub required: Vec<String>,
    pub additional_properties: bool,
}

pub struct ToolParameterSchemaView {
    pub schema_type: Seq<char>,
    pub properties: Seq<ToolPropertyView>,
    pub required: Seq<Seq<char>>,
    pub additional_properties: bool,
}

impl View for ToolParameterSchema {
    type V = ToolParameterSchemaView;

    open spec fn view(&self) -> ToolParameterSchemaView {
        ToolParameterSchemaView {
            schema_type: self.schema_type@,
            properties: self.properties@.map_values(|p: ToolProperty| p@),
            required: self.required@.map_values(|s: String| s@),
            additional_properties: self.additional_properties,
        }
    }
}

/// The view of a property built from its parts.
pub open spec fn property_view(
    name: Seq<char>,
    property_type: Seq<char>,
    description: Seq<char>,
    allowed_values: Option<Seq<Seq<char>>>,
) -> ToolPropertyView {
    ToolPropertyView { name, property_type, description, allowed_values }
}

/// A property without a fixed choice of values.
pub(crate) fn new_property(name: &str, property_type: &str, description: &str) -> (r: ToolProperty)
    ensures
        r@ == property_view(name@, property_type@, description@, None),
{
    ToolProperty {
        name: String::from_str(name),
        property_type: String::from_str(property_type),
        description: String::from_str(description),
        allowed_values: None,
    }
}

/// The schema of an object that takes no parameters at all.
pub(crate) fn empty_object_schema() -> (r: ToolParameterSchema)
    ensures
        r@ == (ToolParameterSchemaView {
            schema_type: "object"@,
            properties: Seq::empty(),
            required: Seq::empty(),
            additional_properties: false,
        }),
{
    let r = ToolParameterSchema {
        schema_type: String::from_str("object"),
        properties: Vec::new(),
        required: Vec::new(),
        additional_properties: false,
    };
    assert(r@.properties =~= Seq::<ToolPropertyView>::empty());
    assert(r@.required =~= Seq::<Seq<char>>::empty());
    r
}

/// Whether a tool call succeeded.
#[derive(Clone, Copy, Debug, PartialEq, Eq, Structural)]
pub enum ToolCallResponseStatus {
    Success,
    Error,
}

/// The answer of a tool: the call's id, the tool's name, the status and the
/// content, the latter as JSON text.
pub struct ToolCallResponse {
    pub id: String,
    pub name: String,
    pub status: ToolCallResponseStatus,
    pub content: String,
}

pub struct ToolCallResponseView {
    pub id: Seq<char>,
    pub name: Seq<char>,
    pub status: ToolCallResponseStatus,
    pub content: Seq<char>,
}

impl View for ToolCallResponse {
    type V = ToolCallResponseView;

    open spec fn view(&self) -> ToolCallResponseView {
        ToolCallResponseView {
            id: self.id@,
            name: self.name@,
            status: self.status,
            content: self.content@,
        }
    }
}

/// The JSON of a status: its variant name in snake case.
pub open spec fn status_json(s: ToolCallResponseStatus) -> Seq<char> {
    match s {
        ToolCallResponseStatus::Success => "\"success\""@,
        ToolCallResponseStatus::Error => "\"error\""@,
    }
}

/// The compact JSON object of a response, fields in declaration order.
pub open spec fn response_json(r: ToolCallResponseView) -> Seq<char> {
    "{\"id\":"@ + json_string_literal(r.id) + ",\"name\":"@ + json_string_literal(r.name)
        + ",\"status\":"@ + status_json(r.status) + ",\"content\":"@ + r.content + "}"@
}

impl ToolCallResponse {
    /// The JSON text of the response, as `serde_json::to_string` writes it.
    pub fn to_json(&self) -> (r: String)
        ensures
            r@ == response_json(self@),
    {
        let mut s = String::from_str("{\"id\":");
        s.append(json_quote(self.id.as_str()).as_str());
        s.append(",\"name\":");
        s.append(json_quote(self.name.as_str()).as_str());
        s.append(",\"status\":");
        match self.status {
            ToolCallResponseStatus::Success => s.append("\"success\""),
            ToolCallResponseStatus::Error => s.append("\"error\""),
        }
        s.append(",\"content\":");
        s.append(self.content.as_str());
        s.append("}");
        s
    }
}

/// A tool's answer: a tool call response message whose text is the
/// response's JSON.
pub open spec fn tool_answer_view(
    id: Seq<char>,
    name: Seq<char>,
    status: ToolCallResponseStatus,
    content: Seq<char>,
    tool_call_id: Option<Seq<char>>,
) -> MessageView {
    text_message_view(
        MessageType::ToolCallResponse,
        response_json(ToolCallResponseView { id, name, status, content }),
        tool_call_id,
    )
}

/// A tool's answer, built from its parts.
pub fn tool_answer(
    id: String,
    name: String,
    status: ToolCallResponseStatus,
    content: String,
    tool_call_id: Option<String>,
) -> (r: Message)
    ensures
        r@ == tool_answer_view(id@, name@, status, content@, opt_string_view(tool_call_id)),
{
    let response = ToolCallResponse { id, name, status, content };
    Message {
        message_type: MessageType::ToolCallResponse,
        contents: MessageContents::String(response.to_json()),
        tool_call_id,
    }
}

/// A tool's answer to a failed call: the error's text, as a JSON string,
/// under the error status.
pub open spec fn tool_error_answer_view(
    id: Seq<char>,
    name: Seq<char>,
    error: crate::tools::error::ErrorView,
    tool_call_id: Option<Seq<char>>,
) -> MessageView {
    tool_answer_view(
        id,
        name,
        ToolCallResponseStatus::Error,
        json_string_literal(tool_error_text(error)),
        tool_call_id,
    )
}

/// A tool's answer to a failed call.
pub fn tool_error_answer(id: String, name: String, error: &Error, tool_call_id: Option<String>) -> (r:
    Message)
    ensures
        r@ == tool_error_answer_view(id@, name@, error@, opt_string_view(tool_call_id)),
{
    let text = error.to_string();
    tool_answer(
        id,
        name,
        ToolCallResponseStatus::Error,
        json_quote(text.as_str()),
        tool_call_id,
    )
}

} // verus!
