//! The messages of a conversation, as the session keeps them.

use crate::conversation_message::tool_call::{
    duplicate_requests, requests_json, requests_to_json, ToolCallRequestMessage,
    ToolCallRequestView,
};
use vstd::prelude::*;

verus! {

/// Who a message comes from, or what it carries.
#[derive(Clone, Copy, Debug, PartialEq, Eq, Structural)]
pub enum MessageType {
    System,
    User,
    LLM,
    ToolCallRequest,
    ToolCallResponse,
}

/// A message's payload: text, or the tool calls the model asks for.
#[derive(Clone, Debug)]
pub enum MessageContents {
    String(String),
    ToolCallRequests(Vec<ToolCallRequestMessage>),
}

pub enum MessageContentsView {
    String(Seq<char>),
    ToolCallRequests(Seq<ToolCallRequestView>),
}

impl View for MessageContents {
    type V = MessageContentsView;

    open spec fn view(&self) -> MessageContentsView {
        match self {
            MessageContents::String(s) => MessageContentsView::String(s@),
            MessageContents::ToolCallRequests(v) => MessageContentsView::ToolCallRequests(
                v@.map_values(|r: ToolCallRequestMessage| r@),
            ),
        }
    }
}

impl MessageContentsView {
    /// The text of the contents: the string itself, or the JSON array of the
    /// tool call requests.
    pub open spec fn text(self) -> Seq<char> {
        match self {
            MessageContentsView::String(s) => s,
            MessageContentsView::ToolCallRequests(rs) => requests_json(rs),
        }
    }
}

impl MessageContents {
    /// A copy of the contents.
    pub fn duplicate(&self) -> (r: MessageContents)
        ensures
            r@ == self@,
    {
        match self {
            MessageContents::String(s) => MessageContents::String(s.clone()),
            MessageContents::ToolCallRequests(rs) => MessageContents::ToolCallRequests(
                duplicate_requests(rs),
            ),
        }
    }

    pub fn into_string(self) -> (r: String)
        ensures
            r@ == self@.text(),
    {
        match self {
            MessageContents::String(s) => s,
            MessageContents::ToolCallRequests(requests) => requests_to_json(&requests),
        }
    }
}

/// One message of the conversation.
#[derive(Clone, Debug)]
pub struct Message {
    pub message_type: MessageType,
    pub contents: MessageContents,
    pub tool_call_id: Option<String>,
}

pub struct MessageView {
    pub message_type: MessageType,
    pub contents: MessageContentsView,
    pub tool_call_id: Option<Seq<char>>,
}

pub open spec fn opt_string_view(s: Option<String>) -> Option<Seq<char>> {
    match s {
        Some(s) => Some(s@),
        None => None,
    }
}

impl View for Message {
    type V = MessageView;

    open spec fn view(&self) -> MessageView {
        MessageView {
            message_type: self.message_type,
            contents: self.contents@,
            tool_call_id: opt_string_view(self.tool_call_id),
        }
    }
}

/// A copy of an optional string.
pub fn duplicate_opt_string(s: &Option<String>) -> (r: Option<String>)
    ensures
        opt_string_view(r) == opt_string_view(*s),
{
    match s {
        Some(s) => Some(s.clone()),
        None => None,
    }
}

impl Message {
    /// A copy of the message.
    pub fn duplicate(&self) -> (r: Message)
        ensures
            r@ == self@,
    {
        Message {
            message_type: self.message_type,
            contents: self.contents.duplicate(),
            tool_call_id: duplicate_opt_string(&self.tool_call_id),
        }
    }
}

/// The view of a plain text message of the given type.
pub open spec fn text_message_view(
    message_type: MessageType,
    text: Seq<char>,
    tool_call_id: Option<Seq<char>>,
) -> MessageView {
    MessageView { message_type, contents: MessageContentsView::String(text), tool_call_id }
}

/// A plain text message; the text is copied from `text`.
pub fn text_message(message_type: MessageType, text: &str, tool_call_id: Option<String>) -> (r:
    Message)
    ensures
        r@ == text_message_view(message_type, text@, opt_string_view(tool_call_id)),
{
    Message {
        message_type,
        contents: MessageContents::String(text.to_owned()),
        tool_call_id,
    }
}

/// Something that can be turned into a conversation message.
pub trait IntoMessage: Sized {
    spec fn into_message_requires(&self) -> bool;

    fn into_message(self) -> (m: Message)
        requires
            self.into_message_requires(),
    ;
}

} // verus!
