pub mod error;
pub mod tui;
