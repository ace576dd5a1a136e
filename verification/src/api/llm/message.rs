//! A flat message form: a type and a string.

use vstd::prelude::*;

verus! {

#[derive(Debug)]
pub struct Message {
    pub message_type: MessageType,
    pub string: String,
}

#[derive(Clone, Copy, Debug, PartialEq, Eq, Structural)]
pub enum MessageType {
    System,
    User,
    LLM,
    ToolCallRequest,
    ToolCallResponse,
}

} // verus!
