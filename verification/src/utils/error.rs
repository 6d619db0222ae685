//! The error that the application hands to its user interface.

use vstd::prelude::*;
use vstd::string::*;

verus! {

/// An error with a message for the user and a code for the program.
#[derive(Clone, Debug, PartialEq, Eq)]
pub struct AppError {
    pub message: String,
    pub code: String,
}

/// The text of an error: the code in brackets, then the message.
pub open spec fn error_line(code: Seq<char>, message: Seq<char>) -> Seq<char> {
    "["@ + code + "] "@ + message
}

impl AppError {
    /// An error with the given message and code.
    pub fn new(message: String, code: String) -> (error: AppError)
        ensures
            error.message == message,
            error.code == code,
    {
        AppError { message, code }
    }

    /// The text of the error: the code in brackets, then the message.
    pub fn to_text(&self) -> (text: String)
        ensures
            text@ == error_line(self.code@, self.message@),
    {
        let mut text = String::from_str("[");
        text.append(self.code.as_str());
        text.append("] ");
        text.append(self.message.as_str());
        text
    }
}

} // verus!
