pub mod completion;
pub mod provider;
