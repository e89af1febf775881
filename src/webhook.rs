//! Provider webhook payloads, holding only the fields that normalization reads.
use vstd::prelude::*;

verus! {

/// The `message` payload of a WAHA webhook.
#[derive(Debug, Clone, PartialEq, Eq)]
pub struct WahaMessagePayload {
    pub id: String,
    pub timestamp: i64,
    pub from: String,
    pub to: String,
    pub body: Option<String>,
    pub from_me: bool,
    pub has_media: bool,
}

/// A WAHA webhook: an event name, the session it came through and its payload.
#[derive(Debug, Clone, PartialEq, Eq)]
pub struct WahaWebhook {
    pub id: String,
    pub session: String,
    pub event: String,
    pub payload: Option<WahaMessagePayload>,
}

/// A Wacraft webhook envelope.
#[derive(Debug, Clone, PartialEq, Eq)]
pub struct WacraftWebhook {
    pub id: String,
    pub from_id: Option<String>,
    pub messaging_product_id: Option<String>,
    pub receiver_data: Option<WacraftReceiverData>,
    pub created_at: Option<String>,
    pub updated_at: Option<String>,
    pub deleted_at: Option<String>,
}

/// The received message inside a Wacraft webhook.
#[derive(Debug, Clone, PartialEq, Eq)]
pub struct WacraftReceiverData {
    pub context: Option<WacraftContext>,
    pub timestamp: Option<String>,
    pub message_type: Option<String>,
    pub interactive: Option<WacraftInteractive>,
    pub text: Option<WacraftText>,
    pub id: Option<String>,
    pub from: Option<String>,
}

/// Forwarding and reply context of a Wacraft message.
#[derive(Debug, Clone, PartialEq, Eq)]
pub struct WacraftContext {
    pub forwarded: Option<bool>,
    pub frequently_forwarded: Option<bool>,
    pub from: Option<String>,
    pub id: Option<String>,
}

/// An interactive (list or button) reply of a Wacraft message.
#[derive(Debug, Clone, PartialEq, Eq)]
pub struct WacraftInteractive {
    pub interactive_type: Option<String>,
    pub list_reply: Option<WacraftListReply>,
    pub button_reply: Option<WacraftButtonReply>,
}

/// The row chosen from a list message.
#[derive(Debug, Clone, PartialEq, Eq)]
pub struct WacraftListReply {
    pub id: Option<String>,
    pub title: Option<String>,
    pub description: Option<String>,
}

/// The button pressed on a button message.
#[derive(Debug, Clone, PartialEq, Eq)]
pub struct WacraftButtonReply {
    pub id: Option<String>,
    pub title: Option<String>,
}

/// The text part of a Wacraft message.
#[derive(Debug, Clone, PartialEq, Eq)]
pub struct WacraftText {
    pub body: Option<String>,
    pub preview_url: Option<bool>,
}

} // verus!
