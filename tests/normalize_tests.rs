use wa_ai_adapter::admission::{admit_wacraft, admit_waha, Admission};
use wa_ai_adapter::envelope::{AgentSettings, Provider};
use wa_ai_adapter::orchestrator::{Action, DispatchRun, Event, RunOptions};
use wa_ai_adapter::message::{CanonicalMessage, HandleError, MessageKind, Normalized};
use wa_ai_adapter::normalize::{
    interactive_to_body, normalize_wacraft, normalize_wacraft_message, normalize_waha,
    NormalizedMessage,
};
use wa_ai_adapter::text::is_blank;
use wa_ai_adapter::webhook::{
    WacraftButtonReply, WacraftInteractive, WacraftListReply, WacraftReceiverData, WacraftText,
    WacraftWebhook, WahaMessagePayload, WahaWebhook,
};

fn waha(event: &str, from_me: bool, has_media: bool, body: Option<&str>) -> WahaWebhook {
    WahaWebhook {
        id: "evt-1".to_string(),
        session: "default".to_string(),
        event: event.to_string(),
        payload: Some(WahaMessagePayload {
            id: "msg-1".to_string(),
            timestamp: 1_700_000_000,
            from: "111@c.us".to_string(),
            to: "999@c.us".to_string(),
            body: body.map(|b| b.to_string()),
            from_me,
            has_media,
        }),
    }
}

fn receiver(message_type: Option<&str>) -> WacraftReceiverData {
    WacraftReceiverData {
        context: None,
        timestamp: Some("1700000123".to_string()),
        message_type: message_type.map(|t| t.to_string()),
        interactive: None,
        text: None,
        id: Some("wamid.1".to_string()),
        from: Some("5511999@x".to_string()),
    }
}

fn wacraft(data: Option<WacraftReceiverData>) -> WacraftWebhook {
    WacraftWebhook {
        id: "hook-1".to_string(),
        from_id: Some("from-1".to_string()),
        messaging_product_id: Some("mp-1".to_string()),
        receiver_data: data,
        created_at: None,
        updated_at: None,
        deleted_at: None,
    }
}

fn list_interactive(kind: Option<&str>, title: Option<&str>, id: Option<&str>) -> WacraftInteractive {
    WacraftInteractive {
        interactive_type: kind.map(|k| k.to_string()),
        list_reply: Some(WacraftListReply {
            id: id.map(|i| i.to_string()),
            title: title.map(|t| t.to_string()),
            description: None,
        }),
        button_reply: None,
    }
}

#[test]
fn own_message_is_skipped_without_dispatch() {
    let w = waha("message", true, false, Some("hello"));
    assert_eq!(normalize_waha(&w), Normalized::Skip);
    assert_eq!(admit_waha(&w, &None), Admission::Skip);
}

#[test]
fn empty_first_contact_body_is_skipped() {
    let w = waha("message", false, false, Some(""));
    assert_eq!(normalize_waha(&w), Normalized::Skip);
    assert_eq!(admit_waha(&w, &None), Admission::Skip);
}

#[test]
fn waha_text_message_becomes_canonical() {
    let w = waha("message", false, false, Some("hi there"));
    assert_eq!(
        normalize_waha(&w),
        Normalized::Message(CanonicalMessage {
            conversation_key: "111@c.us".to_string(),
            session: "default".to_string(),
            message_id: "msg-1".to_string(),
            timestamp: 1_700_000_000,
            kind: MessageKind::Text { body: "hi there".to_string() },
        })
    );
}

#[test]
fn waha_media_is_unsupported_media() {
    let w = waha("message", false, true, Some("caption"));
    match normalize_waha(&w) {
        Normalized::Message(m) => {
            assert_eq!(m.kind, MessageKind::Unsupported { type_label: "media".to_string() })
        }
        other => panic!("unexpected {:?}", other),
    }
    let w = waha("message", false, false, None);
    match normalize_waha(&w) {
        Normalized::Message(m) => {
            assert_eq!(m.kind, MessageKind::Unsupported { type_label: "media".to_string() })
        }
        other => panic!("unexpected {:?}", other),
    }
}

#[test]
fn waha_other_event_is_rejected() {
    let w = waha("session.status", false, false, Some("x"));
    assert_eq!(
        normalize_waha(&w),
        Normalized::Reject(HandleError::EventNotSupported("session.status".to_string()))
    );
}

#[test]
fn waha_missing_payload_is_rejected() {
    let mut w = waha("message", false, false, Some("x"));
    w.payload = None;
    assert_eq!(normalize_waha(&w), Normalized::Reject(HandleError::MissingPayload));
}

#[test]
fn waha_empty_sender_is_rejected() {
    let mut w = waha("message", false, false, Some("x"));
    if let Some(p) = w.payload.as_mut() {
        p.from = String::new();
    }
    assert_eq!(
        normalize_waha(&w),
        Normalized::Reject(HandleError::MissingField("payload.from".to_string()))
    );
}

#[test]
fn normalizing_twice_gives_the_same_outcome() {
    let w = waha("message", false, false, Some("again"));
    assert_eq!(normalize_waha(&w), normalize_waha(&w));
    let w2 = wacraft(Some(receiver(Some("text"))));
    assert_eq!(normalize_wacraft(&w2, 5), normalize_wacraft(&w2, 5));
    let w3 = waha("message", true, false, Some("again"));
    assert_eq!(normalize_waha(&w3), normalize_waha(&w3));
}

#[test]
fn list_reply_is_flattened_into_text() {
    let mut d = receiver(Some("interactive"));
    d.interactive = Some(list_interactive(None, Some("Billing"), Some("42")));
    assert_eq!(
        normalize_wacraft_message(&d),
        NormalizedMessage::Text("[list_reply] Billing (id: 42)".to_string())
    );
    let msg = match admit_wacraft(&wacraft(Some(d)), 0, &None) {
        Admission::Proceed(m) => m,
        other => panic!("unexpected {:?}", other),
    };
    let settings = AgentSettings {
        chat_interface: "api".to_string(),
        max_retries: 1,
        loop_threshold: 3,
        top_k: 5,
        summarize_message_window: 4,
        summarize_message_keep: 6,
        summarize_system_messages: false,
        thread_prefix_waha: "waha:".to_string(),
        thread_prefix_wacraft: "wacraft:".to_string(),
    };
    let options = RunOptions { send_seen: false, typing: false, ai_response: true };
    let mut run = DispatchRun::new(Provider::Wacraft, msg, options, &settings, "t".to_string());
    run.advance(Event::Begin);
    match run.advance(Event::LockGranted) {
        Action::CallAi(req) => assert_eq!(
            req.data.kind,
            MessageKind::Text { body: "[list_reply] Billing (id: 42)".to_string() }
        ),
        other => panic!("unexpected {:?}", other),
    }
}

#[test]
fn interactive_reply_parts() {
    let i = list_interactive(Some("list_reply"), Some("Billing"), None);
    assert_eq!(interactive_to_body(&i), Some("[list_reply] Billing".to_string()));
    let i = list_interactive(None, None, Some("7"));
    assert_eq!(interactive_to_body(&i), Some("[list_reply] (id: 7)".to_string()));
    let i = list_interactive(None, None, None);
    assert_eq!(interactive_to_body(&i), None);
    let b = WacraftInteractive {
        interactive_type: None,
        list_reply: None,
        button_reply: Some(WacraftButtonReply {
            id: Some("yes".to_string()),
            title: Some("Yes".to_string()),
        }),
    };
    assert_eq!(interactive_to_body(&b), Some("[button_reply] Yes (id: yes)".to_string()));
}

#[test]
fn interactive_without_title_or_id_is_unsupported() {
    let mut d = receiver(Some("interactive"));
    d.interactive = Some(list_interactive(Some("list_reply"), None, None));
    assert_eq!(
        normalize_wacraft_message(&d),
        NormalizedMessage::Unsupported("interactive::list_reply".to_string())
    );
    let d = receiver(Some("interactive"));
    assert_eq!(
        normalize_wacraft_message(&d),
        NormalizedMessage::Unsupported("interactive::interactive".to_string())
    );
}

#[test]
fn wacraft_text_and_blank_text() {
    let mut d = receiver(Some("text"));
    d.text = Some(WacraftText { body: Some("hello".to_string()), preview_url: None });
    assert_eq!(normalize_wacraft_message(&d), NormalizedMessage::Text("hello".to_string()));
    d.text = Some(WacraftText { body: Some(" \t\n ".to_string()), preview_url: None });
    assert_eq!(normalize_wacraft_message(&d), NormalizedMessage::Skip);
    assert_eq!(normalize_wacraft(&wacraft(Some(d.clone())), 0), Normalized::Skip);
    d.text = None;
    assert_eq!(normalize_wacraft_message(&d), NormalizedMessage::Unsupported("text".to_string()));
}

#[test]
fn wacraft_other_types_keep_their_name() {
    let d = receiver(Some("image"));
    assert_eq!(normalize_wacraft_message(&d), NormalizedMessage::Unsupported("image".to_string()));
    let d = receiver(None);
    assert_eq!(
        normalize_wacraft_message(&d),
        NormalizedMessage::Unsupported("unknown".to_string())
    );
}

#[test]
fn wacraft_fields_and_fallbacks() {
    let mut d = receiver(Some("text"));
    d.text = Some(WacraftText { body: Some("hello".to_string()), preview_url: None });
    let m = match normalize_wacraft(&wacraft(Some(d.clone())), 42) {
        Normalized::Message(m) => m,
        other => panic!("unexpected {:?}", other),
    };
    assert_eq!(m.conversation_key, "5511999@x");
    assert_eq!(m.session, "mp-1");
    assert_eq!(m.message_id, "wamid.1");
    assert_eq!(m.timestamp, 1_700_000_123);

    d.timestamp = Some("not a number".to_string());
    d.id = None;
    let mut w = wacraft(Some(d.clone()));
    w.messaging_product_id = None;
    let m = match normalize_wacraft(&w, 42) {
        Normalized::Message(m) => m,
        other => panic!("unexpected {:?}", other),
    };
    assert_eq!(m.timestamp, 42);
    assert_eq!(m.message_id, "hook-1");
    assert_eq!(m.session, "from-1");

    d.timestamp = Some("-17".to_string());
    let mut w = wacraft(Some(d));
    w.messaging_product_id = None;
    w.from_id = None;
    let m = match normalize_wacraft(&w, 42) {
        Normalized::Message(m) => m,
        other => panic!("unexpected {:?}", other),
    };
    assert_eq!(m.timestamp, -17);
    assert_eq!(m.session, "unknown");
}

#[test]
fn wacraft_without_receiver_or_sender() {
    assert_eq!(normalize_wacraft(&wacraft(None), 0), Normalized::Skip);
    let mut d = receiver(Some("text"));
    d.from = None;
    assert_eq!(
        normalize_wacraft(&wacraft(Some(d)), 0),
        Normalized::Reject(HandleError::MissingField("receiver_data.from".to_string()))
    );
}

#[test]
fn blank_text_detection() {
    assert!(is_blank(""));
    assert!(is_blank(" \t\u{00A0}\n"));
    assert!(!is_blank(" a "));
}
