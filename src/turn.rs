//! Handing a conversation's permit to a waiting run: the registry grant and
//! the run's lock-granted step happen together, so a run never believes it
//! holds a permit that the registry did not give it.
use vstd::prelude::*;
use crate::laws::{coupled, registry_after};
use crate::lock::{grants, LockRegistry};
use crate::orchestrator::{step, Action, DispatchRun, Event, EventView, Phase};

verus! {

/// Asks the registry for the permit of the run's conversation under run id
/// `id`. When it is granted, the run is told so and its next action is
/// returned (the registry releases the permit at once if that action is a
/// release); otherwise nothing changes.
pub fn grant_lock(reg: &mut LockRegistry, run: &mut DispatchRun, id: u64) -> (a: Option<Action>)
    requires
        old(reg).wf(),
        old(run)@.phase == Phase::Locking,
    ensures
        final(reg).wf(),
        a is Some <==> grants(old(reg)@, old(run)@.key),
        match a {
            Some(act) => (final(run)@, act@) == step(old(run)@, EventView::LockGranted)
                && final(reg)@ == registry_after(old(reg)@, old(run)@, id, EventView::LockGranted)
                && coupled(final(reg)@, final(run)@, id),
            None => final(run)@ == old(run)@ && final(reg)@ == old(reg)@,
        },
{
    if !reg.try_acquire(run.message.conversation_key.as_str(), id) {
        return None;
    }
    let a = run.advance(Event::LockGranted);
    match &a {
        Action::ReleaseLock { .. } => {
            reg.release(run.message.conversation_key.as_str(), id);
        },
        _ => {},
    }
    Some(a)
}

} // verus!
