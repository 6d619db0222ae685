//! The messages of a conversation.

use vstd::prelude::*;
use crate::ai_script::host::{fresh_id, now_millis};
use crate::ai_script::models::Script;
use crate::json::Json;

verus! {

/// Who wrote a message.
#[derive(Clone, Copy, Debug, PartialEq, Eq, Structural)]
pub enum MessageRole {
    User,
    Assistant,
}

/// What a message carries.
#[derive(Clone, Copy, Debug, PartialEq, Eq, Structural)]
pub enum MessageType {
    Analysis,
    Transformation,
    Error,
    Progress,
}

/// What is known of a message besides its text.
#[derive(Debug, PartialEq, Eq)]
pub struct MessageMetadata {
    pub message_type: Option<MessageType>,
    pub data: Option<Json>,
}

/// A message of a conversation.
#[derive(Debug, PartialEq, Eq)]
pub struct ChatMessage {
    pub id: String,
    pub role: MessageRole,
    pub content: String,
    /// Milliseconds since the Unix epoch.
    pub timestamp: i64,
    pub script: Option<Script>,
    pub metadata: MessageMetadata,
}

impl ChatMessage {
    /// A message written now, with a fresh identifier, without a script and
    /// without anything more known of it.
    pub fn new(role: MessageRole, content: String) -> (message: ChatMessage)
        ensures
            message.role == role,
            message.content == content,
            message.script is None,
            message.metadata.message_type is None,
            message.metadata.data is None,
    {
        ChatMessage {
            id: fresh_id(),
            role,
            content,
            timestamp: now_millis(),
            script: None,
            metadata: MessageMetadata { message_type: None, data: None },
        }
    }

    /// The message with `script` attached.
    pub fn with_script(self, script: Script) -> (message: ChatMessage)
        ensures
            message.script == Some(script),
            message.id == self.id,
            message.role == self.role,
            message.content == self.content,
            message.timestamp == self.timestamp,
            message.metadata == self.metadata,
    {
        let mut message = self;
        message.script = Some(script);
        message
    }
}

} // verus!
