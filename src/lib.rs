//! Verified core of a webhook relay between chat providers and an AI backend:
//! message normalization, admission, per-conversation locking and the
//! dispatch state machine that drives presence, the AI round trip and replies.

pub mod text;
pub mod webhook;
pub mod message;
pub mod normalize;
pub mod admission;
pub mod envelope;
pub mod clock;
pub mod orchestrator;
pub mod lock;
pub mod laws;
pub mod headers;
pub mod settings;
pub mod outbound;
pub mod token;
pub mod turn;
