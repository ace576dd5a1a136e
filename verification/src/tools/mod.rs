pub mod common;
pub mod descriptions;
pub mod env;
pub mod error;
pub mod fs;
pub mod llm_traits;
