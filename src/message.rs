//! The canonical message, the outcomes of normalization and the error types.
use vstd::prelude::*;
use crate::text::joined;

verus! {

/// What a canonical message carries: a non-empty text, or the label of a
/// message type that has no text.
#[derive(Debug, Clone, PartialEq, Eq)]
pub enum MessageKind {
    Text { body: String },
    Unsupported { type_label: String },
}

/// The provider-independent unit of work.
#[derive(Debug, Clone, PartialEq, Eq)]
pub struct CanonicalMessage {
    pub conversation_key: String,
    pub session: String,
    pub message_id: String,
    pub timestamp: i64,
    pub kind: MessageKind,
}

/// Failure of an AI round trip relayed through WAHA.
#[derive(Debug, Clone, PartialEq, Eq)]
pub enum TextHandleError {
    Ai(String),
    Waha(String),
}

/// Failure of an AI round trip relayed through Wacraft.
#[derive(Debug, Clone, PartialEq, Eq)]
pub enum WacraftHandleError {
    Ai(String),
    Wacraft(String),
    NotConfigured,
}

/// Every way in which handling a webhook can end other than success.
#[derive(Debug, Clone, PartialEq, Eq)]
pub enum HandleError {
    Text(TextHandleError),
    Wacraft(WacraftHandleError),
    EventNotSupported(String),
    MissingPayload,
    MissingField(String),
}

/// The result of normalizing a webhook.
#[derive(Debug, Clone, PartialEq, Eq)]
pub enum Normalized {
    Message(CanonicalMessage),
    Skip,
    Reject(HandleError),
}

pub enum KindView {
    Text { body: Seq<char> },
    Unsupported { type_label: Seq<char> },
}

pub struct MessageView {
    pub conversation_key: Seq<char>,
    pub session: Seq<char>,
    pub message_id: Seq<char>,
    pub timestamp: int,
    pub kind: KindView,
}

pub enum ErrorView {
    WahaAi(Seq<char>),
    Waha(Seq<char>),
    WacraftAi(Seq<char>),
    Wacraft(Seq<char>),
    WacraftNotConfigured,
    EventNotSupported(Seq<char>),
    MissingPayload,
    MissingField(Seq<char>),
}

pub enum NormalizedView {
    Message(MessageView),
    Skip,
    Reject(ErrorView),
}

impl View for MessageKind {
    type V = KindView;

    open spec fn view(&self) -> KindView {
        match self {
            MessageKind::Text { body } => KindView::Text { body: body@ },
            MessageKind::Unsupported { type_label } => KindView::Unsupported {
                type_label: type_label@,
            },
        }
    }
}

impl View for CanonicalMessage {
    type V = MessageView;

    open spec fn view(&self) -> MessageView {
        MessageView {
            conversation_key: self.conversation_key@,
            session: self.session@,
            message_id: self.message_id@,
            timestamp: self.timestamp as int,
            kind: self.kind@,
        }
    }
}

impl View for HandleError {
    type V = ErrorView;

    open spec fn view(&self) -> ErrorView {
        match self {
            HandleError::Text(TextHandleError::Ai(m)) => ErrorView::WahaAi(m@),
            HandleError::Text(TextHandleError::Waha(m)) => ErrorView::Waha(m@),
            HandleError::Wacraft(WacraftHandleError::Ai(m)) => ErrorView::WacraftAi(m@),
            HandleError::Wacraft(WacraftHandleError::Wacraft(m)) => ErrorView::Wacraft(m@),
            HandleError::Wacraft(WacraftHandleError::NotConfigured) => ErrorView::WacraftNotConfigured,
            HandleError::EventNotSupported(e) => ErrorView::EventNotSupported(e@),
            HandleError::MissingPayload => ErrorView::MissingPayload,
            HandleError::MissingField(f) => ErrorView::MissingField(f@),
        }
    }
}

impl View for Normalized {
    type V = NormalizedView;

    open spec fn view(&self) -> NormalizedView {
        match self {
            Normalized::Message(m) => NormalizedView::Message(m@),
            Normalized::Skip => NormalizedView::Skip,
            Normalized::Reject(e) => NormalizedView::Reject(e@),
        }
    }
}

impl CanonicalMessage {
    /// A canonical message never has an empty conversation key, nor an empty text body.
    pub open spec fn well_formed(&self) -> bool {
        &&& self.conversation_key@.len() > 0
        &&& (self.kind matches MessageKind::Text { body } ==> body@.len() > 0)
    }
}

/// The text that reports an error.
pub open spec fn error_text(e: ErrorView) -> Seq<char> {
    match e {
        ErrorView::WahaAi(m) => "ai call failed: "@ + m,
        ErrorView::Waha(m) => "waha call failed: "@ + m,
        ErrorView::WacraftAi(m) => "ai call failed: "@ + m,
        ErrorView::Wacraft(m) => "wacraft api call failed: "@ + m,
        ErrorView::WacraftNotConfigured => "wacraft client not configured"@,
        ErrorView::EventNotSupported(ev) => "Event '"@ + ev + "' not supported"@,
        ErrorView::MissingPayload => "Payload is missing"@,
        ErrorView::MissingField(f) => "Missing required field: "@ + f,
    }
}

impl HandleError {
    /// The text that reports this error.
    pub fn message(&self) -> (r: String)
        ensures
            r@ == error_text(self@),
    {
        match self {
            HandleError::Text(TextHandleError::Ai(m)) => joined("ai call failed: ", m.as_str()),
            HandleError::Text(TextHandleError::Waha(m)) => joined("waha call failed: ", m.as_str()),
            HandleError::Wacraft(WacraftHandleError::Ai(m)) => joined(
                "ai call failed: ",
                m.as_str(),
            ),
            HandleError::Wacraft(WacraftHandleError::Wacraft(m)) => joined(
                "wacraft api call failed: ",
                m.as_str(),
            ),
            HandleError::Wacraft(WacraftHandleError::NotConfigured) => "wacraft client not configured".to_string(),
            HandleError::EventNotSupported(ev) => {
                let head = joined("Event '", ev.as_str());
                joined(head.as_str(), "' not supported")
            },
            HandleError::MissingPayload => "Payload is missing".to_string(),
            HandleError::MissingField(f) => joined("Missing required field: ", f.as_str()),
        }
    }
}

} // verus!
