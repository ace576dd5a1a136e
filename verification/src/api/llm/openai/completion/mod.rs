pub mod common;
pub mod request;
pub mod response;
