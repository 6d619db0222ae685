//! The conversation between the user and the assistant.

pub mod history;
pub mod message;
