//! The interruption-tolerant blocking wait.
//!
//! A synchronization attempt blocks on a socket-like resource. While it
//! blocks, asynchronous signals (child-process terminations from an
//! unrelated thread) may interrupt the wait at any moment. An interrupted
//! wait is an artifact of scheduling, not a transport fault: the correct
//! response is to re-issue the identical wait, with no bound other than
//! eventual completion or a genuine error.
//!
//! The wait is modelled as a stream of [`WaitEvent`]s handed in by the
//! unverified shell that performs the actual blocking call: each event is
//! what one issue of the wait came back with. The decision taken on each
//! event is [`wait_step`]; a whole recorded stream is folded into a result
//! by [`sync_with_retry`]. The central law, proved in
//! [`lemma_interruption_insensitive`], is that the result of a stream is
//! exactly the result of the same stream with every interruption removed:
//! signal pressure can never be the cause of a failure.

use vstd::prelude::*;

use crate::outcome::TransportError;

verus! {

/// What one issue of the blocking wait came back with.
#[derive(Clone, Copy, Debug, PartialEq, Eq, Structural)]
pub enum WaitEvent {
    /// The wait completed: the synchronization finished.
    Ready,
    /// The wait returned early because an asynchronous signal was
    /// delivered during it. Nothing happened on the transport.
    Interrupted,
    /// The wait surfaced a genuine transport failure.
    Failed(TransportError),
}

/// The decision taken on one wait event.
#[derive(Clone, Copy, Debug, PartialEq, Eq)]
pub enum WaitDecision {
    /// Re-issue the identical wait.
    Retry,
    /// The wait is over, with this result.
    Conclude(Result<(), TransportError>),
}

/// The decision owed to one wait event: an interruption is retried,
/// anything else concludes the wait.
pub open spec fn spec_wait_step(event: WaitEvent) -> WaitDecision {
    match event {
        WaitEvent::Interrupted => WaitDecision::Retry,
        WaitEvent::Ready => WaitDecision::Conclude(Ok(())),
        WaitEvent::Failed(e) => WaitDecision::Conclude(Err(e)),
    }
}

/// The retry-on-interruption policy, applied to a single event. The
/// unverified shell issues the blocking call, classifies what came back,
/// and obeys the returned decision.
pub fn wait_step(event: WaitEvent) -> (d: WaitDecision)
    ensures
        d == spec_wait_step(event),
{
    match event {
        WaitEvent::Interrupted => WaitDecision::Retry,
        WaitEvent::Ready => WaitDecision::Conclude(Ok(())),
        WaitEvent::Failed(e) => WaitDecision::Conclude(Err(e)),
    }
}

/// The result of a recorded event stream: the meaning of its first
/// non-interrupted event, or `None` if the stream holds interruptions
/// alone (the wait would still be blocked).
pub open spec fn spec_sync_result(events: Seq<WaitEvent>) -> Option<Result<(), TransportError>>
    decreases events.len(),
{
    if events.len() == 0 {
        None
    } else {
        match events[0] {
            WaitEvent::Interrupted => spec_sync_result(events.skip(1)),
            WaitEvent::Ready => Some(Ok(())),
            WaitEvent::Failed(e) => Some(Err(e)),
        }
    }
}

/// The same stream with every interruption removed: what the wait would
/// have seen had no signal pressure existed.
pub open spec fn spec_strip_interruptions(events: Seq<WaitEvent>) -> Seq<WaitEvent>
    decreases events.len(),
{
    if events.len() == 0 {
        Seq::empty()
    } else if events[0] is Interrupted {
        spec_strip_interruptions(events.skip(1))
    } else {
        seq![events[0]] + spec_strip_interruptions(events.skip(1))
    }
}

/// The stripped stream is interruption-free.
pub proof fn lemma_strip_no_interruptions(events: Seq<WaitEvent>)
    ensures
        forall|k: int|
            0 <= k < spec_strip_interruptions(events).len()
                ==> #[trigger] spec_strip_interruptions(events)[k] !is Interrupted,
    decreases events.len(),
{
    if events.len() == 0 {
    } else {
        lemma_strip_no_interruptions(events.skip(1));
    }
}

/// Interruption-insensitivity: the result of a wait is exactly the result
/// it would have had with no interruptions at all. A signal landing during
/// a blocking call can therefore never flip an outcome.
pub proof fn lemma_interruption_insensitive(events: Seq<WaitEvent>)
    ensures
        spec_sync_result(events) == spec_sync_result(spec_strip_interruptions(events)),
    decreases events.len(),
{
    if events.len() == 0 {
    } else if events[0] is Interrupted {
        lemma_interruption_insensitive(events.skip(1));
    } else {
        let stripped = spec_strip_interruptions(events);
        assert(stripped[0] == events[0]);
    }
}

/// Folds a recorded event stream into the result of the wait, by applying
/// [`wait_step`] to each event in order: interruptions are absorbed, the
/// first genuine event decides.
pub fn sync_with_retry(events: &Vec<WaitEvent>) -> (r: Option<Result<(), TransportError>>)
    ensures
        r == spec_sync_result(events@),
{
    let mut i: usize = 0;
    proof {
        assert(events@.skip(0) =~= events@);
    }
    loop
        invariant
            i <= events@.len(),
            spec_sync_result(events@.skip(i as int)) == spec_sync_result(events@),
        decreases events@.len() - i,
    {
        if i == events.len() {
            return None;
        }
        let e = events[i];
        proof {
            assert(events@.skip(i as int)[0] == events@[i as int]);
            assert(events@.skip(i as int).skip(1) =~= events@.skip(i as int + 1));
        }
        match wait_step(e) {
            WaitDecision::Retry => {
                i = i + 1;
            }
            WaitDecision::Conclude(r) => {
                return Some(r);
            }
        }
    }
}

} // verus!
