use wa_ai_adapter::clock::{current_timestamp, datetime_text};
use wa_ai_adapter::envelope::{build_request, thread_id_for_waha, AgentSettings, Provider};
use wa_ai_adapter::message::{CanonicalMessage, MessageKind};
use wa_ai_adapter::outbound::{ErrorMessage, WahaSeen, WahaTextOut, WahaTyping};
use wa_ai_adapter::text::same_text;
use wa_ai_adapter::token::{Grant, TokenCache};
use wa_ai_adapter::clock::{datetime_text_or, CALENDAR_MAX_SECS, CALENDAR_MIN_SECS};
use wa_ai_adapter::clock::timestamp_from_elapsed;
use wa_ai_adapter::text::char_is_whitespace;
use wa_ai_adapter::message::{HandleError, TextHandleError, WacraftHandleError};
use wa_ai_adapter::settings::ConfigError;

fn settings() -> AgentSettings {
    AgentSettings {
        chat_interface: "api".to_string(),
        max_retries: 2,
        loop_threshold: 3,
        top_k: 5,
        summarize_message_window: 4,
        summarize_message_keep: 6,
        summarize_system_messages: true,
        thread_prefix_waha: "waha:".to_string(),
        thread_prefix_wacraft: "wc:".to_string(),
    }
}

#[test]
fn thread_id_joins_prefix_and_user() {
    assert_eq!(thread_id_for_waha(&settings(), "123@c.us"), "waha:123@c.us");
}

#[test]
fn request_carries_context_and_knobs() {
    let m = CanonicalMessage {
        conversation_key: "u@x".to_string(),
        session: "s1".to_string(),
        message_id: "m1".to_string(),
        timestamp: 86_400,
        kind: MessageKind::Text { body: "hi".to_string() },
    };
    let r = build_request(&settings(), Provider::Wacraft, &m, datetime_text(86_400));
    assert_eq!(r.thread_id, "wc:u@x");
    assert_eq!(r.data.chat_id, "u@x");
    assert_eq!(r.data.session, "s1");
    assert_eq!(r.data.timestamp, 86_400);
    assert_eq!(r.data.datetime, "1970-01-02 00:00:00 UTC");
    assert_eq!(r.data.source, Provider::Wacraft);
    assert_eq!(r.max_retries, 2);
    assert!(r.summarize_system_messages);
}

#[test]
fn calendar_text_of_timestamps() {
    assert_eq!(datetime_text(0), "1970-01-01 00:00:00 UTC");
    assert_eq!(datetime_text(1_700_000_000), "2023-11-14 22:13:20 UTC");
    assert!(!datetime_text(i64::MAX).is_empty());
}

#[test]
fn clock_reads_after_the_epoch() {
    let t = current_timestamp().expect("clock before epoch");
    assert!(t > 1_600_000_000);
}

#[test]
fn text_equality() {
    assert!(same_text("abc", "abc"));
    assert!(!same_text("abc", "abd"));
}

#[test]
fn outbound_payloads() {
    let s = WahaSeen::for_message("c", "s", "m");
    assert_eq!(s.message_ids, vec!["m".to_string()]);
    assert_eq!(s.participant, None);
    let t = WahaTyping::new("c", "s");
    assert_eq!((t.chat_id.as_str(), t.session.as_str()), ("c", "s"));
    let o = WahaTextOut::new("c", "s", "body");
    assert_eq!(o.text_body, "body");
    assert_eq!(ErrorMessage::new("bad").error, "bad");
}

#[test]
fn token_cache_freshness() {
    let mut c = TokenCache::new();
    assert_eq!(c.usable_token(0), None);
    assert_eq!(c.next_grant(false), Grant::Password);
    c.store("acc".to_string(), "ref".to_string(), 3600, 1000);
    assert_eq!(c.expires_at, Some(4600));
    assert_eq!(c.usable_token(1000), Some("acc".to_string()));
    assert_eq!(c.usable_token(4539), Some("acc".to_string()));
    assert_eq!(c.usable_token(4540), None);
    assert_eq!(c.next_grant(false), Grant::Refresh("ref".to_string()));
    assert_eq!(c.next_grant(true), Grant::Password);
    c.store("a".to_string(), "r".to_string(), i64::MAX, 10);
    assert_eq!(c.expires_at, Some(i64::MAX));
}

#[test]
fn calendar_bounds_of_timestamps() {
    assert_eq!(datetime_text(CALENDAR_MIN_SECS), "-262143-01-01 00:00:00 UTC");
    assert_eq!(datetime_text(CALENDAR_MAX_SECS), "+262142-12-31 23:59:59 UTC");
    assert_eq!(datetime_text_or(CALENDAR_MIN_SECS - 1, Ok(0)), "1970-01-01 00:00:00 UTC");
    assert_eq!(datetime_text_or(CALENDAR_MAX_SECS + 1, Ok(86_400)), "1970-01-02 00:00:00 UTC");
    assert_eq!(datetime_text_or(i64::MAX, Err("clock".to_string())), "");
    assert_eq!(datetime_text_or(i64::MIN, Ok(i64::MAX)), "");
    assert_eq!(datetime_text_or(60, Err("clock".to_string())), "1970-01-01 00:01:00 UTC");
}

#[test]
fn elapsed_seconds_become_timestamps() {
    assert_eq!(timestamp_from_elapsed(Ok(1_700_000_000)), Ok(1_700_000_000));
    assert_eq!(timestamp_from_elapsed(Ok(u64::MAX)), Ok(i64::MAX));
    assert_eq!(
        timestamp_from_elapsed(Err("second time provided was later than self".to_string())),
        Err("second time provided was later than self".to_string())
    );
}

#[test]
fn whitespace_characters() {
    for c in ['\t', '\n', '\r', ' ', '\u{85}', '\u{a0}', '\u{1680}', '\u{2000}', '\u{200a}', '\u{2028}', '\u{3000}'] {
        assert!(char_is_whitespace(c));
        assert_eq!(char_is_whitespace(c), c.is_whitespace());
    }
    for c in ['a', '0', '\u{200b}', '\u{feff}', '\u{180e}'] {
        assert!(!char_is_whitespace(c));
        assert_eq!(char_is_whitespace(c), c.is_whitespace());
    }
}

#[test]
fn error_messages() {
    assert_eq!(HandleError::Text(TextHandleError::Ai("x".to_string())).message(), "ai call failed: x");
    assert_eq!(HandleError::Text(TextHandleError::Waha("x".to_string())).message(), "waha call failed: x");
    assert_eq!(
        HandleError::Wacraft(WacraftHandleError::Wacraft("x".to_string())).message(),
        "wacraft api call failed: x"
    );
    assert_eq!(
        HandleError::Wacraft(WacraftHandleError::NotConfigured).message(),
        "wacraft client not configured"
    );
    assert_eq!(
        HandleError::EventNotSupported("session.status".to_string()).message(),
        "Event 'session.status' not supported"
    );
    assert_eq!(HandleError::MissingPayload.message(), "Payload is missing");
    assert_eq!(
        HandleError::MissingField("payload.from".to_string()).message(),
        "Missing required field: payload.from"
    );
    assert_eq!(
        ConfigError::MissingVar("AI_BASE_URL".to_string()).message(),
        "Missing required environment variable: AI_BASE_URL"
    );
    assert_eq!(
        ConfigError::InvalidUrl { name: "A".to_string(), value: "b".to_string() }.message(),
        "Invalid URL for A: b"
    );
    assert_eq!(
        ConfigError::InvalidNumber { name: "TOP_K".to_string(), value: "x".to_string() }.message(),
        "Invalid number for TOP_K: x"
    );
    assert_eq!(ConfigError::Other("oops".to_string()).message(), "General error: oops");
}
