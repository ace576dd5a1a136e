//! Verified core of a terminal LLM agent: the conversation messages and
//! their OpenAI wire form, the tool catalogue and the tools' responses,
//! the conversation session's state machine and the input line's layout.

pub mod text;
pub mod tools;
pub mod conversation_message;
pub mod api;
pub mod llm;
pub mod message;
pub mod agent_core;
pub mod interface;
