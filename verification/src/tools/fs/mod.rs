pub mod common;
pub mod ls;
pub mod pwd;
pub mod read;
pub mod write;
