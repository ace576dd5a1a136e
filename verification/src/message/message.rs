//! The earlier message form, without tool call ids.

use crate::message::tool_call::ToolCallRequestMessage;
use vstd::prelude::*;

verus! {

#[derive(Debug)]
pub struct Message {
    pub message_type: MessageType,
    pub contents: MessageContents,
}

#[derive(Clone, Copy, Debug, PartialEq, Eq, Structural)]
pub enum MessageType {
    System,
    User,
    LLM,
    ToolCallRequest,
    ToolCallResponse,
}

#[derive(Debug)]
pub enum MessageContents {
    String(String),
    ToolCallRequests(Vec<ToolCallRequestMessage>),
}

/// Something that can be turned into a message of this form.
pub trait IntoMessage {
    fn into_message(self) -> Message;
}

} // verus!
