//! Properties that relate several operations or hold over whole runs.
use vstd::prelude::*;
use crate::lock::{acquired, dropped, entered, grants, has_waiter, holds, withdrawn, Slot};
use crate::message::CanonicalMessage;
use crate::normalize::{
    interactive_body, wacraft_content, wacraft_outcome, wacraft_session, wacraft_timestamp,
    waha_outcome,
};
use crate::text::{opt_text, text_or};
use crate::orchestrator::{initial_run, step, ActionView, EventView, Phase, RunOptions, RunView};
use crate::envelope::{Provider, RequestView};
use crate::webhook::{WacraftInteractive, WacraftWebhook, WahaWebhook};

verus! {

/// While one run holds a conversation's permit, the permit is granted to no
/// one else and no other run can release it; other runs registering for or
/// withdrawing from the key leave it held.
pub proof fn permit_is_exclusive(m: Map<Seq<char>, Slot>, k: Seq<char>, holder: u64, other: u64)
    requires
        holds(m, k, holder),
        other != holder,
    ensures
        !grants(m, k),
        !holds(m, k, other),
        holds(entered(m, k), k, holder),
        has_waiter(m, k) ==> holds(withdrawn(m, k), k, holder),
{
}

/// A granted permit is held by the run it was granted to, and only its
/// release makes the key grantable again.
pub proof fn grant_then_release(m: Map<Seq<char>, Slot>, k: Seq<char>, run: u64)
    requires
        grants(m, k),
    ensures
        holds(acquired(m, k, run), k, run),
        !grants(acquired(m, k, run), k),
        dropped(acquired(m, k, run), k).contains_key(k) ==> grants(
            dropped(acquired(m, k, run), k),
            k,
        ),
{
}

/// Operations on one conversation key never change whether another key's
/// permit can be granted, nor who holds it.
pub proof fn keys_are_independent(
    m: Map<Seq<char>, Slot>,
    k1: Seq<char>,
    k2: Seq<char>,
    run: u64,
)
    requires
        k1 != k2,
    ensures
        grants(entered(m, k1), k2) == grants(m, k2),
        holds(entered(m, k1), k2, run) == holds(m, k2, run),
        grants(m, k1) ==> grants(acquired(m, k1, run), k2) == grants(m, k2),
        grants(m, k1) ==> holds(acquired(m, k1, run), k2, run) == holds(m, k2, run),
        holds(m, k1, run) ==> grants(dropped(m, k1), k2) == grants(m, k2),
        holds(m, k1, run) ==> holds(dropped(m, k1), k2, run) == holds(m, k2, run),
        has_waiter(m, k1) ==> grants(withdrawn(m, k1), k2) == grants(m, k2),
        has_waiter(m, k1) ==> holds(withdrawn(m, k1), k2, run) == holds(m, k2, run),
{
}

/// Whether a run is calling the AI or delivering its reply.
pub open spec fn in_ai_step(s: RunView) -> bool {
    s.phase == Phase::Asking || s.phase == Phase::Replying
}

/// A run that believes it holds its conversation's lock does hold the
/// permit in the registry, under its run id.
pub open spec fn coupled(m: Map<Seq<char>, Slot>, s: RunView, id: u64) -> bool {
    s.locked ==> holds(m, s.key, id)
}

/// Whether the outside world may report `e` to run `id`: it reports a granted
/// lock only after the registry granted the permit.
pub open spec fn report_allowed(m: Map<Seq<char>, Slot>, s: RunView, e: EventView) -> bool {
    (s.phase == Phase::Locking && e is LockGranted) ==> grants(m, s.key)
}

/// The registry after the move that accompanies a run's step: the permit is
/// granted when the run is told it holds the lock, and dropped when the run
/// releases it.
pub open spec fn registry_after(m: Map<Seq<char>, Slot>, s: RunView, id: u64, e: EventView) -> Map<
    Seq<char>,
    Slot,
> {
    let m1 = if s.phase == Phase::Locking && e is LockGranted {
        acquired(m, s.key, id)
    } else {
        m
    };
    if step(s, e).1 is ReleaseLock {
        dropped(m1, s.key)
    } else {
        m1
    }
}

/// Two different runs for one conversation that both agree with the registry
/// are never both calling the AI or delivering a reply.
pub proof fn ai_steps_are_serialized(
    m: Map<Seq<char>, Slot>,
    a: RunView,
    a_id: u64,
    b: RunView,
    b_id: u64,
)
    requires
        a_id != b_id,
        a.key == b.key,
        run_invariant(a),
        run_invariant(b),
        coupled(m, a, a_id),
        coupled(m, b, b_id),
    ensures
        !(in_ai_step(a) && in_ai_step(b)),
{
}

/// When any run takes a step that the outside world may report, with the
/// registry moving along, the run and every other run still agree with the
/// registry. Other runs registering for or withdrawing from keys keep that
/// agreement too.
pub proof fn coupling_is_kept(
    m: Map<Seq<char>, Slot>,
    s: RunView,
    id: u64,
    e: EventView,
    other: RunView,
    other_id: u64,
    k: Seq<char>,
)
    requires
        run_invariant(s),
        coupled(m, s, id),
        report_allowed(m, s, e),
        other_id != id,
        coupled(m, other, other_id),
    ensures
        coupled(registry_after(m, s, id, e), step(s, e).0, id),
        coupled(registry_after(m, s, id, e), other, other_id),
        coupled(entered(m, k), other, other_id),
        has_waiter(m, k) ==> coupled(withdrawn(m, k), other, other_id),
{
    if other.locked && other.key == s.key {
        assert(holds(m, s.key, other_id));
        assert(!s.locked);
        assert(!(s.phase == Phase::Locking && e is LockGranted));
    }
}

/// The state and the actions of a run after it answers `events` in turn.
pub open spec fn run_events(s: RunView, events: Seq<EventView>) -> (RunView, Seq<ActionView>)
    decreases events.len(),
{
    if events.len() == 0 {
        (s, Seq::empty())
    } else {
        let (t, a) = step(s, events[0]);
        let (u, rest) = run_events(t, events.drop_first());
        (u, seq![a] + rest)
    }
}

/// How many of `acts` stop presence.
pub open spec fn stop_count(acts: Seq<ActionView>) -> nat
    decreases acts.len(),
{
    if acts.len() == 0 {
        0
    } else {
        (if acts[0] is StopPresence {
            1nat
        } else {
            0nat
        }) + stop_count(acts.drop_first())
    }
}

/// How many of `acts` release the permit.
pub open spec fn release_count(acts: Seq<ActionView>) -> nat
    decreases acts.len(),
{
    if acts.len() == 0 {
        0
    } else {
        (if acts[0] is ReleaseLock {
            1nat
        } else {
            0nat
        }) + release_count(acts.drop_first())
    }
}

/// Whether the run has released its permit.
pub open spec fn released(s: RunView) -> bool {
    s.phase == Phase::Releasing || s.phase == Phase::Finished
}

/// What holds of every state that a run reaches from its initial state.
pub open spec fn run_invariant(s: RunView) -> bool {
    &&& s.presence_stopped ==> s.presence_started
    &&& (s.phase == Phase::Ready || s.phase == Phase::Locking) ==> !s.locked && !s.presence_started
    &&& (s.phase == Phase::Reading || s.phase == Phase::Starting) ==> s.locked && !s.presence_started
    &&& (s.phase == Phase::Asking || s.phase == Phase::Replying) ==> s.locked && !s.presence_stopped
    &&& s.phase == Phase::Stopping ==> s.locked && s.presence_stopped
    &&& released(s) ==> !s.locked && s.presence_stopped == s.presence_started
}

proof fn step_keeps_invariant(s: RunView, e: EventView)
    requires
        run_invariant(s),
    ensures
        run_invariant(step(s, e).0),
        step(s, e).1 is StopPresence <==> (!s.presence_stopped && step(s, e).0.presence_stopped),
        s.presence_stopped ==> step(s, e).0.presence_stopped,
        step(s, e).1 is ReleaseLock <==> (!released(s) && released(step(s, e).0)),
        released(s) ==> released(step(s, e).0),
{
}

/// The AI call and the reply are only ever issued while the run holds its
/// conversation's permit, and the run keeps holding it until it releases it.
pub proof fn ai_steps_hold_the_permit(s: RunView, e: EventView)
    requires
        run_invariant(s),
    ensures
        run_invariant(step(s, e).0),
        step(s, e).1 is CallAi ==> step(s, e).0.locked && step(s, e).0.phase == Phase::Asking,
        step(s, e).1 is SendReply ==> step(s, e).0.locked && step(s, e).0.phase == Phase::Replying,
        s.locked && !(step(s, e).1 is ReleaseLock) ==> step(s, e).0.locked,
{
}

proof fn trace_counts(s: RunView, events: Seq<EventView>)
    requires
        run_invariant(s),
    ensures
        run_invariant(run_events(s, events).0),
        stop_count(run_events(s, events).1) as int == (if run_events(s, events).0.presence_stopped {
            1int
        } else {
            0int
        }) - (if s.presence_stopped {
            1int
        } else {
            0int
        }),
        release_count(run_events(s, events).1) as int == (if released(run_events(s, events).0) {
            1int
        } else {
            0int
        }) - (if released(s) {
            1int
        } else {
            0int
        }),
    decreases events.len(),
{
    if events.len() > 0 {
        let (t, a) = step(s, events[0]);
        step_keeps_invariant(s, events[0]);
        trace_counts(t, events.drop_first());
        let (u, rest) = run_events(t, events.drop_first());
        let acts = seq![a] + rest;
        assert(acts.drop_first() =~= rest);
    }
}

/// Every state that a run reaches from its initial state, whatever the
/// outside world reports, satisfies `run_invariant`.
pub proof fn reachable_runs_keep_invariant(
    provider: Provider,
    options: RunOptions,
    message: CanonicalMessage,
    request: RequestView,
    events: Seq<EventView>,
)
    ensures
        run_invariant(run_events(initial_run(provider, options, message, request), events).0),
{
    trace_counts(initial_run(provider, options, message, request), events);
}

/// Whatever the outside world reports, a run stops presence at most once and
/// releases its permit at most once; once it has finished, on success or
/// after any failure, it has stopped presence exactly once if presence was
/// started and never otherwise, and released its permit exactly once.
pub proof fn presence_stops_exactly_once(
    provider: Provider,
    options: RunOptions,
    message: CanonicalMessage,
    request: RequestView,
    events: Seq<EventView>,
)
    ensures
        ({
            let (u, acts) = run_events(initial_run(provider, options, message, request), events);
            &&& stop_count(acts) <= 1
            &&& release_count(acts) <= 1
            &&& u.phase == Phase::Finished ==> stop_count(acts) == (if u.presence_started {
                1nat
            } else {
                0nat
            }) && release_count(acts) == 1
        }),
{
    trace_counts(initial_run(provider, options, message, request), events);
}

/// Two WAHA webhooks with the same contents normalize to the same outcome:
/// normalization keeps no state between calls.
pub proof fn waha_normalization_is_repeatable(a: WahaWebhook, b: WahaWebhook)
    requires
        a.event@ == b.event@,
        a.session@ == b.session@,
        a.payload is Some <==> b.payload is Some,
        a.payload is Some ==> ({
            let (p, q) = (a.payload->0, b.payload->0);
            &&& p.id@ == q.id@
            &&& p.timestamp == q.timestamp
            &&& p.from@ == q.from@
            &&& p.from_me == q.from_me
            &&& p.has_media == q.has_media
            &&& (p.body is Some <==> q.body is Some)
            &&& (p.body is Some ==> p.body->0@ == q.body->0@)
        }),
    ensures
        waha_outcome(a) == waha_outcome(b),
{
}

/// Two optional texts with the same characters.
pub open spec fn same_opt(a: Option<String>, b: Option<String>) -> bool {
    opt_text(a) == opt_text(b)
}

/// Two interactive replies whose read fields hold the same characters.
pub open spec fn same_interactive(a: WacraftInteractive, b: WacraftInteractive) -> bool {
    &&& same_opt(a.interactive_type, b.interactive_type)
    &&& (a.list_reply is Some <==> b.list_reply is Some)
    &&& (a.list_reply is Some ==> same_opt(a.list_reply->0.title, b.list_reply->0.title)
        && same_opt(a.list_reply->0.id, b.list_reply->0.id))
    &&& (a.button_reply is Some <==> b.button_reply is Some)
    &&& (a.button_reply is Some ==> same_opt(a.button_reply->0.title, b.button_reply->0.title)
        && same_opt(a.button_reply->0.id, b.button_reply->0.id))
}

/// Two Wacraft webhooks whose read fields hold the same contents.
pub open spec fn same_wacraft(a: WacraftWebhook, b: WacraftWebhook) -> bool {
    &&& a.id@ == b.id@
    &&& same_opt(a.from_id, b.from_id)
    &&& same_opt(a.messaging_product_id, b.messaging_product_id)
    &&& (a.receiver_data is Some <==> b.receiver_data is Some)
    &&& a.receiver_data is Some ==> ({
        let (d, e) = (a.receiver_data->0, b.receiver_data->0);
        &&& same_opt(d.timestamp, e.timestamp)
        &&& same_opt(d.message_type, e.message_type)
        &&& same_opt(d.id, e.id)
        &&& same_opt(d.from, e.from)
        &&& (d.text is Some <==> e.text is Some)
        &&& (d.text is Some ==> same_opt(d.text->0.body, e.text->0.body))
        &&& (d.interactive is Some <==> e.interactive is Some)
        &&& (d.interactive is Some ==> same_interactive(d.interactive->0, e.interactive->0))
    })
}

proof fn same_opt_text_or(a: Option<String>, b: Option<String>, d: Seq<char>)
    requires
        same_opt(a, b),
    ensures
        text_or(a, d) == text_or(b, d),
        a is Some <==> b is Some,
        a is Some ==> a->0@ == b->0@,
{
}

/// Two Wacraft webhooks with the same contents, normalized at the same clock
/// reading, give the same outcome: normalization keeps no state between calls.
pub proof fn wacraft_normalization_is_repeatable(a: WacraftWebhook, b: WacraftWebhook, now: i64)
    requires
        same_wacraft(a, b),
    ensures
        wacraft_outcome(a, now) == wacraft_outcome(b, now),
{
    same_opt_text_or(a.from_id, b.from_id, "unknown"@);
    same_opt_text_or(a.messaging_product_id, b.messaging_product_id, Seq::empty());
    assert(wacraft_session(a) == wacraft_session(b));
    if a.receiver_data is Some {
        let (d, e) = (a.receiver_data->0, b.receiver_data->0);
        same_opt_text_or(d.id, e.id, a.id@);
        same_opt_text_or(d.from, e.from, Seq::empty());
        same_opt_text_or(d.timestamp, e.timestamp, Seq::empty());
        same_opt_text_or(d.message_type, e.message_type, "unknown"@);
        assert(wacraft_timestamp(d, now) == wacraft_timestamp(e, now));
        if d.text is Some {
            same_opt_text_or(d.text->0.body, e.text->0.body, Seq::empty());
        }
        if d.interactive is Some {
            let (i, j) = (d.interactive->0, e.interactive->0);
            same_opt_text_or(i.interactive_type, j.interactive_type, "list_reply"@);
            same_opt_text_or(i.interactive_type, j.interactive_type, "button_reply"@);
            same_opt_text_or(i.interactive_type, j.interactive_type, "interactive"@);
            if i.list_reply is Some {
                same_opt_text_or(i.list_reply->0.title, j.list_reply->0.title, Seq::empty());
                same_opt_text_or(i.list_reply->0.id, j.list_reply->0.id, Seq::empty());
            }
            if i.button_reply is Some {
                same_opt_text_or(i.button_reply->0.title, j.button_reply->0.title, Seq::empty());
                same_opt_text_or(i.button_reply->0.id, j.button_reply->0.id, Seq::empty());
            }
            assert(interactive_body(i) == interactive_body(j));
        }
        assert(wacraft_content(d) == wacraft_content(e));
    }
}

} // verus!
