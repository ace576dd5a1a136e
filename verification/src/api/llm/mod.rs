pub mod message;
pub mod openai;
