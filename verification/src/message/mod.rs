pub mod message;
pub mod tool_call;
