//! The request sent to the AI backend and the response it returns.
use vstd::prelude::*;
use crate::message::{CanonicalMessage, KindView, MessageKind};

verus! {

/// The chat provider a message came through.
#[derive(Debug, Clone, Copy, PartialEq, Eq, Structural)]
pub enum Provider {
    Waha,
    Wacraft,
}

/// Static agent-tuning parameters forwarded with every request, and the
/// per-provider prefixes of thread ids.
#[derive(Debug, Clone, PartialEq, Eq)]
pub struct AgentSettings {
    pub chat_interface: String,
    pub max_retries: u32,
    pub loop_threshold: u32,
    pub top_k: u32,
    pub summarize_message_window: u32,
    pub summarize_message_keep: u32,
    pub summarize_system_messages: bool,
    pub thread_prefix_waha: String,
    pub thread_prefix_wacraft: String,
}

/// The per-message context of a request.
#[derive(Debug, Clone, PartialEq, Eq)]
pub struct AiContext {
    pub source: Provider,
    pub chat_id: String,
    pub session: String,
    pub timestamp: i64,
    pub datetime: String,
    pub kind: MessageKind,
}

/// A request to the AI backend: context plus agent-tuning parameters.
#[derive(Debug, Clone, PartialEq, Eq)]
pub struct InputRequest {
    pub data: AiContext,
    pub chat_interface: String,
    pub max_retries: u32,
    pub loop_threshold: u32,
    pub top_k: u32,
    pub summarize_message_window: u32,
    pub summarize_message_keep: u32,
    pub summarize_system_messages: bool,
    pub thread_id: String,
}

/// The AI backend's answer; only the presence of `response` matters here.
#[derive(Debug, Clone, PartialEq, Eq)]
pub struct LlmApiResponse {
    pub next_step: String,
    pub next_step_reason: String,
    pub response: Option<String>,
}

pub struct ContextView {
    pub source: Provider,
    pub chat_id: Seq<char>,
    pub session: Seq<char>,
    pub timestamp: int,
    pub datetime: Seq<char>,
    pub kind: KindView,
}

pub struct RequestView {
    pub data: ContextView,
    pub chat_interface: Seq<char>,
    pub max_retries: u32,
    pub loop_threshold: u32,
    pub top_k: u32,
    pub summarize_message_window: u32,
    pub summarize_message_keep: u32,
    pub summarize_system_messages: bool,
    pub thread_id: Seq<char>,
}

impl View for InputRequest {
    type V = RequestView;

    open spec fn view(&self) -> RequestView {
        RequestView {
            data: ContextView {
                source: self.data.source,
                chat_id: self.data.chat_id@,
                session: self.data.session@,
                timestamp: self.data.timestamp as int,
                datetime: self.data.datetime@,
                kind: self.data.kind@,
            },
            chat_interface: self.chat_interface@,
            max_retries: self.max_retries,
            loop_threshold: self.loop_threshold,
            top_k: self.top_k,
            summarize_message_window: self.summarize_message_window,
            summarize_message_keep: self.summarize_message_keep,
            summarize_system_messages: self.summarize_system_messages,
            thread_id: self.thread_id@,
        }
    }
}

/// The thread id of a conversation: the provider's prefix, then the conversation key.
pub open spec fn thread_id_of(settings: AgentSettings, provider: Provider, key: Seq<char>) -> Seq<
    char,
> {
    match provider {
        Provider::Waha => settings.thread_prefix_waha@ + key,
        Provider::Wacraft => settings.thread_prefix_wacraft@ + key,
    }
}

/// The request for `message`, which came through `provider` and was sent at
/// the time that `datetime` spells.
pub open spec fn request_of(
    settings: AgentSettings,
    provider: Provider,
    message: CanonicalMessage,
    datetime: Seq<char>,
) -> RequestView {
    RequestView {
        data: ContextView {
            source: provider,
            chat_id: message.conversation_key@,
            session: message.session@,
            timestamp: message.timestamp as int,
            datetime,
            kind: message.kind@,
        },
        chat_interface: settings.chat_interface@,
        max_retries: settings.max_retries,
        loop_threshold: settings.loop_threshold,
        top_k: settings.top_k,
        summarize_message_window: settings.summarize_message_window,
        summarize_message_keep: settings.summarize_message_keep,
        summarize_system_messages: settings.summarize_system_messages,
        thread_id: thread_id_of(settings, provider, message.conversation_key@),
    }
}

/// The WAHA thread id of a user: the configured prefix followed by the user id.
pub fn thread_id_for_waha(cfg: &AgentSettings, user_id: &str) -> (r: String)
    ensures
        r@ == cfg.thread_prefix_waha@ + user_id@,
{
    let mut t = cfg.thread_prefix_waha.clone();
    t.append(user_id);
    t
}

/// The Wacraft thread id of a user: the configured prefix followed by the user id.
pub fn thread_id_for_wacraft(cfg: &AgentSettings, user_id: &str) -> (r: String)
    ensures
        r@ == cfg.thread_prefix_wacraft@ + user_id@,
{
    let mut t = cfg.thread_prefix_wacraft.clone();
    t.append(user_id);
    t
}

/// A copy of a message kind.
pub fn copy_kind(kind: &MessageKind) -> (r: MessageKind)
    ensures
        r@ == kind@,
{
    match kind {
        MessageKind::Text { body } => MessageKind::Text { body: body.clone() },
        MessageKind::Unsupported { type_label } => MessageKind::Unsupported {
            type_label: type_label.clone(),
        },
    }
}

/// Builds the request envelope from a message and the static agent settings.
pub fn build_request(
    settings: &AgentSettings,
    provider: Provider,
    message: &CanonicalMessage,
    datetime: String,
) -> (r: InputRequest)
    ensures
        r@ == request_of(*settings, provider, *message, datetime@),
{
    let thread_id = match provider {
        Provider::Waha => thread_id_for_waha(settings, message.conversation_key.as_str()),
        Provider::Wacraft => thread_id_for_wacraft(settings, message.conversation_key.as_str()),
    };
    InputRequest {
        data: AiContext {
            source: provider,
            chat_id: message.conversation_key.clone(),
            session: message.session.clone(),
            timestamp: message.timestamp,
            datetime,
            kind: copy_kind(&message.kind),
        },
        chat_interface: settings.chat_interface.clone(),
        max_retries: settings.max_retries,
        loop_threshold: settings.loop_threshold,
        top_k: settings.top_k,
        summarize_message_window: settings.summarize_message_window,
        summarize_message_keep: settings.summarize_message_keep,
        summarize_system_messages: settings.summarize_system_messages,
        thread_id,
    }
}

} // verus!
