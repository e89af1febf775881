//! Normalization of provider webhooks into canonical messages.
use vstd::prelude::*;
use crate::message::{
    CanonicalMessage, ErrorView, HandleError, KindView, MessageKind, MessageView, Normalized,
    NormalizedView,
};
use crate::text::{
    blank, decimal_i64, is_blank, opt_text, parse_i64, same_text, text_or, text_or_default,
};
use crate::webhook::{WacraftInteractive, WacraftReceiverData, WacraftWebhook, WahaWebhook};

verus! {

/// What a Wacraft message holds, before it is placed in a canonical message.
#[derive(Debug, Clone, PartialEq, Eq)]
pub enum NormalizedMessage {
    Text(String),
    Unsupported(String),
    Skip,
}

pub enum ContentView {
    Text(Seq<char>),
    Unsupported(Seq<char>),
    Skip,
}

impl View for NormalizedMessage {
    type V = ContentView;

    open spec fn view(&self) -> ContentView {
        match self {
            NormalizedMessage::Text(b) => ContentView::Text(b@),
            NormalizedMessage::Unsupported(l) => ContentView::Unsupported(l@),
            NormalizedMessage::Skip => ContentView::Skip,
        }
    }
}

/// `(id: <id>)`
pub open spec fn id_part(id: Seq<char>) -> Seq<char> {
    "(id: "@ + id + ")"@
}

/// The title and the id part of a reply, joined by a space where both are there.
pub open spec fn reply_parts(title: Option<String>, id: Option<String>) -> Seq<char> {
    match title {
        Some(t) => match id {
            Some(i) => t@ + " "@ + id_part(i@),
            None => t@,
        },
        None => match id {
            Some(i) => id_part(i@),
            None => Seq::empty(),
        },
    }
}

/// `[<kind>] <title> (id: <id>)`, or nothing when the reply has neither title nor id.
pub open spec fn reply_body(kind: Seq<char>, title: Option<String>, id: Option<String>) -> Option<
    Seq<char>,
> {
    if title is None && id is None {
        None
    } else {
        Some("["@ + kind + "] "@ + reply_parts(title, id))
    }
}

/// The synthetic text of an interactive reply: the list selection if there is
/// one, else the button selection.
pub open spec fn interactive_body(i: WacraftInteractive) -> Option<Seq<char>> {
    match i.list_reply {
        Some(l) => reply_body(text_or(i.interactive_type, "list_reply"@), l.title, l.id),
        None => match i.button_reply {
            Some(b) => reply_body(text_or(i.interactive_type, "button_reply"@), b.title, b.id),
            None => None,
        },
    }
}

/// The content of a Wacraft message, by its type.
pub open spec fn wacraft_content(d: WacraftReceiverData) -> ContentView {
    let t = text_or(d.message_type, "unknown"@);
    if t == "text"@ {
        match d.text {
            Some(tx) => match tx.body {
                Some(b) => if blank(b@) {
                    ContentView::Skip
                } else {
                    ContentView::Text(b@)
                },
                None => ContentView::Unsupported("text"@),
            },
            None => ContentView::Unsupported("text"@),
        }
    } else if t == "interactive"@ {
        match d.interactive {
            Some(i) => match interactive_body(i) {
                Some(b) => ContentView::Text(b),
                None => ContentView::Unsupported(
                    "interactive::"@ + text_or(i.interactive_type, "interactive"@),
                ),
            },
            None => ContentView::Unsupported("interactive::"@ + "interactive"@),
        }
    } else {
        ContentView::Unsupported(t)
    }
}

/// The outcome of normalizing a WAHA webhook.
pub open spec fn waha_outcome(w: WahaWebhook) -> NormalizedView {
    if w.event@ != "message"@ {
        NormalizedView::Reject(ErrorView::EventNotSupported(w.event@))
    } else {
        match w.payload {
            None => NormalizedView::Reject(ErrorView::MissingPayload),
            Some(p) => {
                let text = !p.has_media && p.body is Some;
                if p.from_me {
                    NormalizedView::Skip
                } else if text && p.body->0@.len() == 0 {
                    NormalizedView::Skip
                } else if p.from@.len() == 0 {
                    NormalizedView::Reject(ErrorView::MissingField("payload.from"@))
                } else {
                    NormalizedView::Message(
                        MessageView {
                            conversation_key: p.from@,
                            session: w.session@,
                            message_id: p.id@,
                            timestamp: p.timestamp as int,
                            kind: if text {
                                KindView::Text { body: p.body->0@ }
                            } else {
                                KindView::Unsupported { type_label: "media"@ }
                            },
                        },
                    )
                }
            },
        }
    }
}

/// The timestamp of a Wacraft message: its decimal `timestamp` field, or `now`
/// where that is missing or not a number.
pub open spec fn wacraft_timestamp(d: WacraftReceiverData, now: i64) -> int {
    match d.timestamp {
        Some(t) => match decimal_i64(t@) {
            Some(v) => v,
            None => now as int,
        },
        None => now as int,
    }
}

/// The session of a Wacraft webhook: its messaging product, else its sender, else `unknown`.
pub open spec fn wacraft_session(w: WacraftWebhook) -> Seq<char> {
    match w.messaging_product_id {
        Some(s) => s@,
        None => text_or(w.from_id, "unknown"@),
    }
}

/// The outcome of normalizing a Wacraft webhook received at time `now`.
pub open spec fn wacraft_outcome(w: WacraftWebhook, now: i64) -> NormalizedView {
    match w.receiver_data {
        None => NormalizedView::Skip,
        Some(d) => {
            if d.from is None || d.from->0@.len() == 0 {
                NormalizedView::Reject(ErrorView::MissingField("receiver_data.from"@))
            } else {
                let m = MessageView {
                    conversation_key: d.from->0@,
                    session: wacraft_session(w),
                    message_id: text_or(d.id, w.id@),
                    timestamp: wacraft_timestamp(d, now),
                    kind: KindView::Text { body: Seq::empty() },
                };
                match wacraft_content(d) {
                    ContentView::Skip => NormalizedView::Skip,
                    ContentView::Text(b) => NormalizedView::Message(
                        MessageView { kind: KindView::Text { body: b }, ..m },
                    ),
                    ContentView::Unsupported(l) => NormalizedView::Message(
                        MessageView { kind: KindView::Unsupported { type_label: l }, ..m },
                    ),
                }
            }
        },
    }
}

fn reply_to_body(kind: &str, title: &Option<String>, id: &Option<String>) -> (r: Option<String>)
    ensures
        opt_text(r) == reply_body(kind@, *title, *id),
{
    if title.is_none() && id.is_none() {
        return None;
    }
    let mut s = "[".to_string();
    s.append(kind);
    s.append("] ");
    let ghost head = s@;
    match title {
        Some(t) => {
            s.append(t.as_str());
            if id.is_some() {
                s.append(" ");
            }
        },
        None => {},
    }
    match id {
        Some(i) => {
            s.append("(id: ");
            s.append(i.as_str());
            s.append(")");
        },
        None => {},
    }
    assert(s@ =~= head + reply_parts(*title, *id));
    Some(s)
}

/// The synthetic text body of an interactive reply, if it has a title or an id.
pub fn interactive_to_body(interactive: &WacraftInteractive) -> (r: Option<String>)
    ensures
        opt_text(r) == interactive_body(*interactive),
{
    match &interactive.list_reply {
        Some(list) => {
            let kind = text_or_default(&interactive.interactive_type, "list_reply");
            reply_to_body(kind.as_str(), &list.title, &list.id)
        },
        None => match &interactive.button_reply {
            Some(button) => {
                let kind = text_or_default(&interactive.interactive_type, "button_reply");
                reply_to_body(kind.as_str(), &button.title, &button.id)
            },
            None => None,
        },
    }
}

/// Classifies a Wacraft message by its type: text, flattened interactive
/// reply, or a labelled unsupported kind; blank text is skipped.
pub fn normalize_wacraft_message(data: &WacraftReceiverData) -> (r: NormalizedMessage)
    ensures
        r@ == wacraft_content(*data),
        r matches NormalizedMessage::Text(b) ==> b@.len() > 0,
{
    let message_type = text_or_default(&data.message_type, "unknown");
    if same_text(message_type.as_str(), "text") {
        match &data.text {
            Some(text) => match &text.body {
                Some(body) => {
                    if is_blank(body.as_str()) {
                        NormalizedMessage::Skip
                    } else {
                        NormalizedMessage::Text(body.clone())
                    }
                },
                None => NormalizedMessage::Unsupported("text".to_string()),
            },
            None => NormalizedMessage::Unsupported("text".to_string()),
        }
    } else if same_text(message_type.as_str(), "interactive") {
        match &data.interactive {
            Some(interactive) => match interactive_to_body(interactive) {
                Some(body) => {
                    proof {
                        reveal_strlit("[");
                    }
                    NormalizedMessage::Text(body)
                },
                None => {
                    let mut label = "interactive::".to_string();
                    let kind = text_or_default(&interactive.interactive_type, "interactive");
                    label.append(kind.as_str());
                    NormalizedMessage::Unsupported(label)
                },
            },
            None => {
                let mut label = "interactive::".to_string();
                label.append("interactive");
                NormalizedMessage::Unsupported(label)
            },
        }
    } else {
        NormalizedMessage::Unsupported(message_type)
    }
}

/// Normalizes a WAHA webhook: other events are rejected, echoes of the
/// account's own messages and empty texts are skipped, media becomes an
/// unsupported `media` message.
pub fn normalize_waha(webhook: &WahaWebhook) -> (r: Normalized)
    ensures
        r@ == waha_outcome(*webhook),
        r matches Normalized::Message(m) ==> m.well_formed(),
{
    if !same_text(webhook.event.as_str(), "message") {
        return Normalized::Reject(HandleError::EventNotSupported(webhook.event.clone()));
    }
    match &webhook.payload {
        None => Normalized::Reject(HandleError::MissingPayload),
        Some(p) => {
            if p.from_me {
                return Normalized::Skip;
            }
            let kind = if !p.has_media {
                match &p.body {
                    Some(body) => {
                        if body.as_str().unicode_len() == 0 {
                            return Normalized::Skip;
                        }
                        MessageKind::Text { body: body.clone() }
                    },
                    None => MessageKind::Unsupported { type_label: "media".to_string() },
                }
            } else {
                MessageKind::Unsupported { type_label: "media".to_string() }
            };
            if p.from.as_str().unicode_len() == 0 {
                return Normalized::Reject(HandleError::MissingField("payload.from".to_string()));
            }
            Normalized::Message(
                CanonicalMessage {
                    conversation_key: p.from.clone(),
                    session: webhook.session.clone(),
                    message_id: p.id.clone(),
                    timestamp: p.timestamp,
                    kind,
                },
            )
        },
    }
}

/// Normalizes a Wacraft webhook received at time `now` (seconds since the
/// epoch, used where the message carries no readable timestamp).
pub fn normalize_wacraft(webhook: &WacraftWebhook, now: i64) -> (r: Normalized)
    ensures
        r@ == wacraft_outcome(*webhook, now),
        r matches Normalized::Message(m) ==> m.well_formed(),
{
    let data = match &webhook.receiver_data {
        Some(d) => d,
        None => {
            return Normalized::Skip;
        },
    };
    let chat_id = match &data.from {
        Some(f) => {
            if f.as_str().unicode_len() == 0 {
                return Normalized::Reject(
                    HandleError::MissingField("receiver_data.from".to_string()),
                );
            }
            f.clone()
        },
        None => {
            return Normalized::Reject(HandleError::MissingField("receiver_data.from".to_string()));
        },
    };
    let message_id = text_or_default(&data.id, webhook.id.as_str());
    let session = match &webhook.messaging_product_id {
        Some(s) => s.clone(),
        None => text_or_default(&webhook.from_id, "unknown"),
    };
    let timestamp = match &data.timestamp {
        Some(t) => match parse_i64(t.as_str()) {
            Some(v) => v,
            None => now,
        },
        None => now,
    };
    let kind = match normalize_wacraft_message(data) {
        NormalizedMessage::Skip => {
            return Normalized::Skip;
        },
        NormalizedMessage::Text(body) => MessageKind::Text { body },
        NormalizedMessage::Unsupported(label) => MessageKind::Unsupported { type_label: label },
    };
    Normalized::Message(
        CanonicalMessage { conversation_key: chat_id, session, message_id, timestamp, kind },
    )
}

} // verus!
