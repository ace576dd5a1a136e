pub mod app;
pub mod instance;
