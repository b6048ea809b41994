//! The Listener Task core: what one fetch outcome makes the task do next —
//! which events of a batch fire the action, and when the task stops.
use vstd::prelude::*;
use crate::errors::Errors;
use crate::events::{is_trigger, is_trigger_spec, RawEvent};

verus! {

/// Cadence of the per-device event poll, in milliseconds.
pub const EVENT_POLL_INTERVAL_MS: u64 = 250;

/// What one fetch call on the device produced: a batch of raw events, or
/// an unrecoverable read failure.
pub enum FetchOutcome {
    Batch(Vec<RawEvent>),
    Failed,
}

/// What the Listener Task does next.
pub enum ListenerStep {
    /// Fire the action once per listed event, sleep the poll interval,
    /// then fetch again.
    Continue(Vec<RawEvent>),
    /// Stop the task for good and report the error; no retry, no respawn.
    Stop(Errors),
}

/// The trigger events of a batch: its home-button releases, in batch order.
pub open spec fn triggers_spec(events: Seq<RawEvent>) -> Seq<RawEvent>
    decreases events.len(),
{
    if events.len() == 0 {
        Seq::empty()
    } else {
        let rest = triggers_spec(events.drop_last());
        if is_trigger_spec(events.last()) {
            rest.push(events.last())
        } else {
            rest
        }
    }
}

/// Key Filter over a whole batch: keeps exactly the trigger events, in
/// batch order; every other event is silently skipped, never an error.
pub fn matching_triggers(events: &Vec<RawEvent>) -> (r: Vec<RawEvent>)
    ensures
        r@ == triggers_spec(events@),
{
    let mut out: Vec<RawEvent> = Vec::new();
    let mut i: usize = 0;
    while i < events.len()
        invariant
            0 <= i <= events@.len(),
            out@ == triggers_spec(events@.take(i as int)),
        decreases events@.len() - i,
    {
        proof {
            assert(events@.take(i + 1int).drop_last() =~= events@.take(i as int));
            assert(events@.take(i + 1int).last() == events@[i as int]);
        }
        let e = events[i];
        if is_trigger(&e) {
            out.push(e);
        }
        i = i + 1;
    }
    proof {
        assert(events@.take(events@.len() as int) =~= events@);
    }
    out
}

/// Listener Task core. On a fetched batch the task continues: it fires the
/// action on exactly the trigger events of the batch, in order, then polls
/// again after the fixed interval. On a fetch failure the task stops for
/// good, reporting the failure under the device's display name.
pub fn listener_step(outcome: FetchOutcome, name: &String) -> (r: ListenerStep)
    ensures
        (outcome matches FetchOutcome::Batch(events) ==> r matches ListenerStep::Continue(fired)
            && fired@ == triggers_spec(events@)),
        (outcome matches FetchOutcome::Failed ==> r matches ListenerStep::Stop(e) && (
        e matches Errors::EvdevFetch(n) && n@ == name@)),
{
    match outcome {
        FetchOutcome::Batch(events) => ListenerStep::Continue(matching_triggers(&events)),
        FetchOutcome::Failed => ListenerStep::Stop(Errors::EvdevFetch(name.clone())),
    }
}

/// The display name a listener caches for its device: the name the device
/// declares, or a fixed placeholder when it declares none.
pub fn device_display_name(name: Option<&str>) -> (r: String)
    ensures
        (name matches Some(n) ==> r@ == n@),
        (name is None ==> r@ == "Nameless device"@),
{
    match name {
        Some(n) => n.to_owned(),
        None => "Nameless device".to_owned(),
    }
}

/// Every event a continuing step fires on is a trigger, and every trigger
/// of the batch is fired on: the step neither drops a press nor invents
/// one.
pub proof fn lemma_triggers_exact(events: Seq<RawEvent>)
    ensures
        forall|i: int|
            0 <= i < triggers_spec(events).len() ==> is_trigger_spec(
                #[trigger] triggers_spec(events)[i],
            ),
        forall|i: int|
            0 <= i < events.len() && is_trigger_spec(#[trigger] events[i]) ==> triggers_spec(
                events,
            ).contains(events[i]),
    decreases events.len(),
{
    if events.len() > 0 {
        lemma_triggers_exact(events.drop_last());
        let t = triggers_spec(events);
        let rest = triggers_spec(events.drop_last());
        assert forall|i: int|
            0 <= i < events.len() && is_trigger_spec(#[trigger] events[i]) implies t.contains(
            events[i],
        ) by {
            if i < events.len() - 1 {
                assert(events.drop_last()[i] == events[i]);
                assert(rest.contains(events[i]));
                let j = choose|j: int| 0 <= j < rest.len() && rest[j] == events[i];
                assert(t[j] == events[i]);
            } else {
                assert(t.last() == events[i]);
            }
        }
    }
}

} // verus!
