use wa_ai_adapter::envelope::{AgentSettings, Provider};
use wa_ai_adapter::lock::LockRegistry;
use wa_ai_adapter::message::{CanonicalMessage, MessageKind};
use wa_ai_adapter::orchestrator::{Action, DispatchRun, Event, RunOptions};
use wa_ai_adapter::turn::grant_lock;

#[test]
fn same_key_is_granted_to_one_run_at_a_time() {
    let mut reg = LockRegistry::new();
    assert!(reg.enter("k"));
    assert!(reg.enter("k"));
    assert_eq!(reg.references("k"), 2);
    assert!(reg.try_acquire("k", 1));
    assert!(!reg.try_acquire("k", 2));
    assert_eq!(reg.holder("k"), Some(1));
    assert!(!reg.release("k", 2));
    assert!(reg.release("k", 1));
    assert_eq!(reg.references("k"), 1);
    assert!(reg.try_acquire("k", 2));
    assert!(reg.release("k", 2));
    assert_eq!(reg.references("k"), 0);
    assert_eq!(reg.holder("k"), None);
}

#[test]
fn different_keys_do_not_wait() {
    let mut reg = LockRegistry::new();
    assert!(reg.enter("a"));
    assert!(reg.enter("b"));
    assert!(reg.try_acquire("a", 1));
    assert!(reg.try_acquire("b", 2));
    assert_eq!(reg.holder("a"), Some(1));
    assert_eq!(reg.holder("b"), Some(2));
    assert!(reg.release("a", 1));
    assert_eq!(reg.holder("b"), Some(2));
}

#[test]
fn unregistered_key_is_not_granted() {
    let mut reg = LockRegistry::new();
    assert!(!reg.try_acquire("k", 1));
    assert!(!reg.release("k", 1));
    assert!(!reg.withdraw("k"));
}

#[test]
fn waiting_run_can_withdraw() {
    let mut reg = LockRegistry::new();
    reg.enter("k");
    reg.enter("k");
    assert!(reg.try_acquire("k", 1));
    assert!(reg.withdraw("k"));
    assert_eq!(reg.references("k"), 1);
    assert!(!reg.withdraw("k"));
    assert!(reg.release("k", 1));
    assert_eq!(reg.references("k"), 0);
    reg.enter("w");
    assert!(reg.withdraw("w"));
    assert_eq!(reg.references("w"), 0);
}

fn run_for(key: &str) -> DispatchRun {
    let settings = AgentSettings {
        chat_interface: "api".to_string(),
        max_retries: 1,
        loop_threshold: 3,
        top_k: 5,
        summarize_message_window: 4,
        summarize_message_keep: 6,
        summarize_system_messages: false,
        thread_prefix_waha: "waha:".to_string(),
        thread_prefix_wacraft: "wacraft:".to_string(),
    };
    let m = CanonicalMessage {
        conversation_key: key.to_string(),
        session: "s".to_string(),
        message_id: "m".to_string(),
        timestamp: 0,
        kind: MessageKind::Text { body: "b".to_string() },
    };
    DispatchRun::new(
        Provider::Wacraft,
        m,
        RunOptions { send_seen: false, typing: false, ai_response: true },
        &settings,
        "t".to_string(),
    )
}

#[test]
fn concurrent_runs_on_one_key_never_overlap_ai_steps() {
    let mut reg = LockRegistry::new();
    let mut a = run_for("k");
    let mut b = run_for("k");
    let mut in_ai = 0;
    let mut max_in_ai = 0;
    assert!(matches!(a.advance(Event::Begin), Action::AcquireLock { .. }));
    assert!(matches!(b.advance(Event::Begin), Action::AcquireLock { .. }));
    reg.enter("k");
    reg.enter("k");
    assert!(reg.try_acquire("k", 1));
    assert!(matches!(a.advance(Event::LockGranted), Action::CallAi(_)));
    in_ai += 1;
    max_in_ai = max_in_ai.max(in_ai);
    assert!(!reg.try_acquire("k", 2));
    assert!(matches!(a.advance(Event::AiAnswered(Err("x".to_string()))), Action::ReleaseLock { .. }));
    in_ai -= 1;
    assert!(reg.release("k", 1));
    a.advance(Event::LockReleased);
    assert!(reg.try_acquire("k", 2));
    assert!(matches!(b.advance(Event::LockGranted), Action::CallAi(_)));
    in_ai += 1;
    max_in_ai = max_in_ai.max(in_ai);
    assert_eq!(max_in_ai, 1);
}

#[test]
fn grant_lock_tells_the_run_only_when_granted() {
    let mut reg = LockRegistry::new();
    let mut a = run_for("k");
    let mut b = run_for("k");
    a.advance(Event::Begin);
    b.advance(Event::Begin);
    reg.enter("k");
    reg.enter("k");
    assert!(matches!(grant_lock(&mut reg, &mut a, 1), Some(Action::CallAi(_))));
    assert!(a.locked);
    assert_eq!(grant_lock(&mut reg, &mut b, 2), None);
    assert!(!b.locked);
    assert_eq!(reg.holder("k"), Some(1));
    assert!(matches!(a.advance(Event::AiAnswered(Err("x".to_string()))), Action::ReleaseLock { .. }));
    assert!(reg.release("k", 1));
    assert!(matches!(grant_lock(&mut reg, &mut b, 2), Some(Action::CallAi(_))));
    assert_eq!(reg.holder("k"), Some(2));
}

#[test]
fn grant_lock_releases_at_once_when_nothing_is_to_be_done() {
    let settings = AgentSettings {
        chat_interface: "api".to_string(),
        max_retries: 1,
        loop_threshold: 3,
        top_k: 5,
        summarize_message_window: 4,
        summarize_message_keep: 6,
        summarize_system_messages: false,
        thread_prefix_waha: "waha:".to_string(),
        thread_prefix_wacraft: "wacraft:".to_string(),
    };
    let m = CanonicalMessage {
        conversation_key: "k".to_string(),
        session: "s".to_string(),
        message_id: "m".to_string(),
        timestamp: 0,
        kind: MessageKind::Text { body: "b".to_string() },
    };
    let opts = RunOptions { send_seen: false, typing: false, ai_response: false };
    let mut r = DispatchRun::new(Provider::Waha, m, opts, &settings, "t".to_string());
    r.advance(Event::Begin);
    let mut reg = LockRegistry::new();
    reg.enter("k");
    assert!(matches!(grant_lock(&mut reg, &mut r, 7), Some(Action::ReleaseLock { .. })));
    assert_eq!(reg.references("k"), 0);
    assert_eq!(reg.holder("k"), None);
}
