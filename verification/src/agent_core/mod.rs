pub mod conversation;
