//! Payloads sent to the WAHA provider, and the error body returned to callers.
use vstd::prelude::*;

verus! {

/// Starts or stops the typing indicator in a chat.
#[derive(Debug, Clone, PartialEq, Eq)]
pub struct WahaTyping {
    pub session: String,
    pub chat_id: String,
}

/// Marks messages of a chat as seen.
#[derive(Debug, Clone, PartialEq, Eq)]
pub struct WahaSeen {
    pub session: String,
    pub chat_id: String,
    pub message_ids: Vec<String>,
    pub participant: Option<String>,
}

/// Sends a text message to a chat.
#[derive(Debug, Clone, PartialEq, Eq)]
pub struct WahaTextOut {
    pub session: String,
    pub chat_id: String,
    pub text_body: String,
}

/// The body of an error response.
#[derive(Debug, Clone, PartialEq, Eq)]
pub struct ErrorMessage {
    pub error: String,
}

impl WahaTyping {
    /// The typing indicator of `chat_id` in `session`.
    pub fn new(chat_id: &str, session: &str) -> (r: Self)
        ensures
            r.chat_id@ == chat_id@,
            r.session@ == session@,
    {
        WahaTyping { session: session.to_string(), chat_id: chat_id.to_string() }
    }
}

impl WahaSeen {
    /// A read receipt for one message of `chat_id` in `session`.
    pub fn for_message(chat_id: &str, session: &str, message_id: &str) -> (r: Self)
        ensures
            r.chat_id@ == chat_id@,
            r.session@ == session@,
            r.message_ids@.len() == 1,
            r.message_ids@[0]@ == message_id@,
            r.participant is None,
    {
        let mut ids: Vec<String> = Vec::new();
        ids.push(message_id.to_string());
        WahaSeen {
            session: session.to_string(),
            chat_id: chat_id.to_string(),
            message_ids: ids,
            participant: None,
        }
    }
}

impl WahaTextOut {
    /// The text `body` addressed to `chat_id` in `session`.
    pub fn new(chat_id: &str, session: &str, body: &str) -> (r: Self)
        ensures
            r.chat_id@ == chat_id@,
            r.session@ == session@,
            r.text_body@ == body@,
    {
        WahaTextOut {
            session: session.to_string(),
            chat_id: chat_id.to_string(),
            text_body: body.to_string(),
        }
    }
}

impl ErrorMessage {
    /// An error body holding `error`.
    pub fn new(error: &str) -> (r: Self)
        ensures
            r.error@ == error@,
    {
        ErrorMessage { error: error.to_string() }
    }
}

} // verus!
