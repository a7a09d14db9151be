//! Lifecycle event bus: the one-way channel through which the supervisor
//! reports terminal outcomes of the supervised process to its observers.
//!
//! Publishing is fire-and-forget: the bus records the event and the runtime
//! hands it to every current subscriber without the publisher waiting on any
//! of them; a publish with no subscribers is a safe no-op. The bus keeps the
//! full publication history, so "each event kind at most once" and "never a
//! `ready` event before the ready flag" are properties of the recorded
//! sequence.

use vstd::prelude::*;

verus! {

/// A one-time notification describing a terminal outcome of the supervised
/// process's startup or execution.
#[derive(PartialEq, Eq, Debug)]
pub enum LifecycleEvent {
    /// The service answers its readiness endpoint on this port.
    Ready { port: u16 },
    /// The process exited; the exit code is absent when a signal killed it.
    Crashed { exit_code: Option<i32> },
    /// Startup failed: the spawn itself, or the readiness budget.
    Error { message: String },
}

/// How many of the events are `Ready` events.
pub open spec fn count_ready(s: Seq<LifecycleEvent>) -> nat
    decreases s.len(),
{
    if s.len() == 0 {
        0
    } else {
        count_ready(s.drop_last()) + if s.last() is Ready {
            1nat
        } else {
            0nat
        }
    }
}

/// How many of the events are `Crashed` events.
pub open spec fn count_crashed(s: Seq<LifecycleEvent>) -> nat
    decreases s.len(),
{
    if s.len() == 0 {
        0
    } else {
        count_crashed(s.drop_last()) + if s.last() is Crashed {
            1nat
        } else {
            0nat
        }
    }
}

/// How many of the events are `Error` events.
pub open spec fn count_error(s: Seq<LifecycleEvent>) -> nat
    decreases s.len(),
{
    if s.len() == 0 {
        0
    } else {
        count_error(s.drop_last()) + if s.last() is Error {
            1nat
        } else {
            0nat
        }
    }
}

/// Publishing one event raises exactly the count of its own kind by one.
pub proof fn lemma_count_push(s: Seq<LifecycleEvent>, e: LifecycleEvent)
    ensures
        count_ready(s.push(e)) == count_ready(s) + if e is Ready {
            1nat
        } else {
            0nat
        },
        count_crashed(s.push(e)) == count_crashed(s) + if e is Crashed {
            1nat
        } else {
            0nat
        },
        count_error(s.push(e)) == count_error(s) + if e is Error {
            1nat
        } else {
            0nat
        },
{
    assert(s.push(e).drop_last() =~= s);
    assert(s.push(e).last() == e);
}

/// A `Ready` event anywhere in the history makes the `Ready` count positive.
pub proof fn lemma_ready_event_counts(s: Seq<LifecycleEvent>, i: int)
    requires
        0 <= i < s.len(),
        s[i] is Ready,
    ensures
        count_ready(s) > 0,
    decreases s.len(),
{
    if i < s.len() - 1 {
        assert(s.drop_last()[i] == s[i]);
        lemma_ready_event_counts(s.drop_last(), i);
    }
}

/// The bus itself: the ordered history of every event published so far.
/// Delivery to subscribers is the runtime's side of the contract; the
/// history is what the supervisor's guarantees are stated over.
#[derive(PartialEq, Eq, Debug)]
pub struct EventBus {
    pub published: Vec<LifecycleEvent>,
}

impl EventBus {
    /// A bus on which nothing has been published.
    pub fn new() -> (r: EventBus)
        ensures
            r.published@.len() == 0,
    {
        EventBus { published: Vec::new() }
    }

    /// Publish one event: append it to the history. The publisher never
    /// blocks on an observer, and with no subscribers this is a no-op
    /// beyond the record itself.
    pub fn publish(&mut self, event: LifecycleEvent)
        ensures
            final(self).published@ == old(self).published@.push(event),
    {
        self.published.push(event);
    }
}

} // verus!
