//! The history of a conversation about one table.

use vstd::prelude::*;
use crate::ai_script::host::now_millis;
use crate::ai_script::models::Script;
use crate::chat::message::ChatMessage;

verus! {

/// The messages about one table, in the order in which they were written.
#[derive(Debug, PartialEq, Eq)]
pub struct ChatHistory {
    pub csv_path: String,
    pub messages: Vec<ChatMessage>,
    /// Milliseconds since the Unix epoch.
    pub created_at: i64,
    /// Milliseconds since the Unix epoch.
    pub updated_at: i64,
}

/// The index of the last of the first `upto` messages that has a script.
pub open spec fn latest_with_script(messages: Seq<ChatMessage>, upto: int) -> Option<int>
    decreases upto,
{
    if upto <= 0 || upto > messages.len() {
        None
    } else if messages[upto - 1].script is Some {
        Some(upto - 1)
    } else {
        latest_with_script(messages, upto - 1)
    }
}

impl ChatHistory {
    /// An empty history for the table at `csv_path`, begun at time `now`.
    pub fn new_at(csv_path: String, now: i64) -> (history: ChatHistory)
        ensures
            history.csv_path == csv_path,
            history.messages@ == Seq::<ChatMessage>::empty(),
            history.created_at == now,
            history.updated_at == now,
    {
        ChatHistory { csv_path, messages: Vec::new(), created_at: now, updated_at: now }
    }

    /// An empty history for the table at `csv_path`, begun now.
    pub fn new(csv_path: String) -> (history: ChatHistory)
        ensures
            history.csv_path == csv_path,
            history.messages@ == Seq::<ChatMessage>::empty(),
            history.created_at == history.updated_at,
    {
        ChatHistory::new_at(csv_path, now_millis())
    }

    /// Appends a message, at time `now`.
    pub fn add_message_at(&mut self, message: ChatMessage, now: i64)
        ensures
            final(self).messages@ == old(self).messages@.push(message),
            final(self).csv_path == old(self).csv_path,
            final(self).created_at == old(self).created_at,
            final(self).updated_at == now,
    {
        self.messages.push(message);
        self.updated_at = now;
    }

    /// Appends a message.
    pub fn add_message(&mut self, message: ChatMessage)
        ensures
            final(self).messages@ == old(self).messages@.push(message),
            final(self).csv_path == old(self).csv_path,
            final(self).created_at == old(self).created_at,
    {
        self.add_message_at(message, now_millis());
    }

    /// The script of the last message that has one.
    pub fn get_latest_script(&self) -> (script: Option<&Script>)
        ensures
            match latest_with_script(self.messages@, self.messages.len() as int) {
                Some(i) => script == Some(&self.messages[i].script->Some_0),
                None => script is None,
            },
    {
        let mut upto: usize = self.messages.len();
        while upto > 0
            invariant
                upto <= self.messages.len(),
                latest_with_script(self.messages@, self.messages.len() as int)
                    == latest_with_script(self.messages@, upto as int),
            decreases upto,
        {
            if let Some(script) = &self.messages[upto - 1].script {
                return Some(script);
            }
            upto -= 1;
        }
        None
    }
}

} // verus!
