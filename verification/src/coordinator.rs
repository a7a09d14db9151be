//! The supervisor's state machine: spawn exactly once, race readiness
//! against termination, publish each lifecycle outcome exactly once, and
//! route every shutdown trigger through the single take-once termination
//! path.
//!
//! The runtime owns the effects (spawning, HTTP attempts, sleeps, kill
//! signals, delivering events to subscribers) and reports each outcome to
//! the coordinator, which decides the next transition. The first decisive
//! event — readiness confirmed, readiness budget exhausted, or the process's
//! termination — wins: whichever arrives later finds the race already
//! decided and publishes nothing further. The ready flag is set before the
//! `ready` event is appended to the bus, so no observer of the event can
//! find a stale un-ready state.

use vstd::prelude::*;

use crate::bus::count_crashed;
use crate::bus::count_error;
use crate::bus::count_ready;
use crate::bus::lemma_count_push;
use crate::bus::EventBus;
use crate::bus::LifecycleEvent;
use crate::probe::ProbeTimeout;
use crate::state::ChildHandle;
use crate::state::ServerState;

verus! {

/// Where the supervised service stands in its lifecycle.
#[derive(Clone, Copy, PartialEq, Eq, Structural, Debug)]
pub enum Phase {
    /// Nothing has happened yet.
    NotStarted,
    /// The spawn has been requested and its outcome is pending.
    Spawning,
    /// The child is live; readiness polling and output relaying run against
    /// it concurrently.
    AwaitingReadiness,
    /// Terminal success: the service answers its readiness endpoint.
    Ready,
    /// Terminal failure: the spawn failed, the readiness budget ran out, or
    /// the process terminated first.
    Failed,
    /// A shutdown trigger fired and the kill, if one was owed, is in flight.
    ShuttingDown,
    /// Shutdown is complete.
    Terminated,
}

/// Every `ready` event on the bus announces this port and no other.
pub open spec fn ready_events_carry_port(s: Seq<LifecycleEvent>, port: u16) -> bool {
    forall|i: int| 0 <= i < s.len() && (#[trigger] s[i]) is Ready ==> s[i]->port == port
}

/// Pushing an event that is not a foreign `ready` keeps every `ready` event
/// on the bus announcing the same port.
proof fn lemma_ready_port_push(s: Seq<LifecycleEvent>, e: LifecycleEvent, port: u16)
    requires
        ready_events_carry_port(s, port),
        e is Ready ==> e->port == port,
    ensures
        ready_events_carry_port(s.push(e), port),
{
    let t = s.push(e);
    assert forall|i: int| 0 <= i < t.len() && (#[trigger] t[i]) is Ready implies t[i]->port
        == port by {
        if i < s.len() {
            assert(t[i] == s[i]);
        } else {
            assert(t[i] == e);
        }
    }
}

/// The supervisor: the service's state, the lifecycle phase, and the bus of
/// published events. One instance supervises one spawn for the whole run.
pub struct Coordinator {
    pub state: ServerState,
    pub phase: Phase,
    /// Whether the process's termination has already been published.
    pub crash_reported: bool,
    pub bus: EventBus,
}

impl Coordinator {
    /// Everything the supervisor guarantees of its own state, maintained by
    /// every transition:
    /// - a `ready` event is published exactly when the ready flag is set, so
    ///   no subscriber ever observes `ready` before the flag;
    /// - a `crashed` event is published exactly when a termination has been
    ///   reported;
    /// - at most one `error` event, and never both a `ready` and an `error`:
    ///   the first decisive outcome wins;
    /// - before the spawn resolves there is no child handle, no published
    ///   event, and no readiness;
    /// - while readiness is still being awaited, no decisive outcome has
    ///   been published;
    /// - the ready flag is set only in the phases readiness can reach;
    /// - every `ready` event announces the service's own port.
    pub open spec fn wf(self) -> bool {
        &&& count_ready(self.bus.published@) == (if self.state.ready {
            1nat
        } else {
            0nat
        })
        &&& count_crashed(self.bus.published@) == (if self.crash_reported {
            1nat
        } else {
            0nat
        })
        &&& count_ready(self.bus.published@) + count_error(self.bus.published@) <= 1
        &&& (self.phase is NotStarted || self.phase is Spawning) ==> (!self.state.ready
            && !self.crash_reported && self.bus.published@.len() == 0 && self.state.child is None)
        &&& self.phase is AwaitingReadiness ==> (!self.state.ready && count_error(
            self.bus.published@,
        ) == 0)
        &&& self.state.ready ==> (self.phase is Ready || self.phase is ShuttingDown
            || self.phase is Terminated)
        &&& self.phase is Ready ==> self.state.ready
        &&& ready_events_carry_port(self.bus.published@, self.state.port)
    }

    /// A supervisor that has not started anything yet.
    pub fn new(port: u16) -> (c: Coordinator)
        ensures
            c.wf(),
            c.phase is NotStarted,
            c.state.port == port,
            !c.state.ready,
            c.state.child is None,
            !c.crash_reported,
            c.bus.published@.len() == 0,
    {
        Coordinator {
            state: ServerState::new(port),
            phase: Phase::NotStarted,
            crash_reported: false,
            bus: EventBus::new(),
        }
    }

    /// Request the one spawn of the run.
    pub fn begin_spawn(&mut self)
        requires
            old(self).wf(),
            old(self).phase is NotStarted,
        ensures
            final(self).wf(),
            final(self).phase is Spawning,
            final(self).state == old(self).state,
            final(self).crash_reported == old(self).crash_reported,
            final(self).bus.published@ == old(self).bus.published@,
    {
        self.phase = Phase::Spawning;
    }

    /// The spawn succeeded: take ownership of the one child handle and start
    /// awaiting readiness. Output relaying and readiness polling begin now,
    /// not before.
    pub fn on_spawned(&mut self, handle: ChildHandle)
        requires
            old(self).wf(),
            old(self).phase is Spawning,
        ensures
            final(self).wf(),
            final(self).phase is AwaitingReadiness,
            final(self).state.child == Some(handle),
            final(self).state.port == old(self).state.port,
            !final(self).state.ready,
            final(self).crash_reported == old(self).crash_reported,
            final(self).bus.published@ == old(self).bus.published@,
    {
        self.state.child = Some(handle);
        self.phase = Phase::AwaitingReadiness;
    }

    /// The spawn failed (executable missing or unlaunchable): surface the
    /// error at once and stop — no readiness polling, no output relay, and
    /// the child handle stays absent.
    pub fn on_spawn_failed(&mut self, message: String)
        requires
            old(self).wf(),
            old(self).phase is Spawning,
        ensures
            final(self).wf(),
            final(self).phase is Failed,
            final(self).state == old(self).state,
            final(self).state.child is None,
            final(self).crash_reported == old(self).crash_reported,
            final(self).bus.published@ == old(self).bus.published@.push(
                LifecycleEvent::Error { message },
            ),
    {
        proof {
            lemma_count_push(
                self.bus.published@,
                LifecycleEvent::Error { message },
            );
            lemma_ready_port_push(
                self.bus.published@,
                LifecycleEvent::Error { message },
                self.state.port,
            );
        }
        self.phase = Phase::Failed;
        self.bus.publish(LifecycleEvent::Error { message });
    }

    /// The probe confirmed readiness. If the race is still open, set the
    /// ready flag — before anything is published, so the flag is never
    /// stale for an observer of the event — and publish `ready` with the
    /// service's port. A probe result arriving after the race was decided
    /// (the process crashed first, or shutdown began) is abandoned.
    pub fn on_probe_ready(&mut self) -> (published: bool)
        requires
            old(self).wf(),
        ensures
            final(self).wf(),
            published <==> old(self).phase is AwaitingReadiness,
            published ==> {
                &&& final(self).phase is Ready
                &&& final(self).state.ready
                &&& final(self).state.port == old(self).state.port
                &&& final(self).state.child == old(self).state.child
                &&& final(self).crash_reported == old(self).crash_reported
                &&& final(self).bus.published@ == old(self).bus.published@.push(
                    LifecycleEvent::Ready { port: old(self).state.port },
                )
            },
            !published ==> *final(self) == *old(self),
    {
        match self.phase {
            Phase::AwaitingReadiness => {
                proof {
                    lemma_count_push(
                        self.bus.published@,
                        LifecycleEvent::Ready { port: self.state.port },
                    );
                    lemma_ready_port_push(
                        self.bus.published@,
                        LifecycleEvent::Ready { port: self.state.port },
                        self.state.port,
                    );
                }
                self.state.ready = true;
                self.phase = Phase::Ready;
                let port = self.state.port;
                self.bus.publish(LifecycleEvent::Ready { port });
                true
            },
            _ => false,
        }
    }

    /// The probe exhausted its budget. If the race is still open, publish
    /// the timeout's diagnostic message as an `error` event and fail; the
    /// process itself is left running — it may still be mid-startup — so the
    /// child handle is untouched. After a decided race this is a no-op.
    pub fn on_probe_timeout(&mut self, timeout: &ProbeTimeout) -> (published: bool)
        requires
            old(self).wf(),
        ensures
            final(self).wf(),
            published <==> old(self).phase is AwaitingReadiness,
            published ==> {
                &&& final(self).phase is Failed
                &&& final(self).state == old(self).state
                &&& final(self).crash_reported == old(self).crash_reported
                &&& final(self).bus.published@.drop_last() == old(self).bus.published@
                &&& final(self).bus.published@.len() == old(self).bus.published@.len() + 1
                &&& (final(self).bus.published@.last() matches LifecycleEvent::Error { message }
                    && message@ == timeout.message_spec())
            },
            !published ==> *final(self) == *old(self),
    {
        match self.phase {
            Phase::AwaitingReadiness => {
                let message = timeout.message();
                proof {
                    lemma_count_push(
                        self.bus.published@,
                        LifecycleEvent::Error { message },
                    );
                    lemma_ready_port_push(
                        self.bus.published@,
                        LifecycleEvent::Error { message },
                        self.state.port,
                    );
                }
                self.phase = Phase::Failed;
                self.bus.publish(LifecycleEvent::Error { message });
                proof {
                    assert(self.bus.published@.drop_last() =~= old(self).bus.published@);
                }
                true
            },
            _ => false,
        }
    }

    /// The output relay detected the process's termination. The handle is
    /// consumed — the process is gone, there is nothing left to kill, and
    /// every later termination trigger becomes a no-op — and the exit code
    /// is published as a `crashed` event, exactly once. If readiness was
    /// still being awaited, termination decides the race as a failure;
    /// a service that crashed after becoming ready keeps its ready outcome.
    pub fn on_child_terminated(&mut self, exit_code: Option<i32>) -> (published: bool)
        requires
            old(self).wf(),
            !(old(self).phase is NotStarted),
            !(old(self).phase is Spawning),
        ensures
            final(self).wf(),
            final(self).state.child is None,
            final(self).state.ready == old(self).state.ready,
            final(self).state.port == old(self).state.port,
            final(self).crash_reported,
            published <==> !old(self).crash_reported,
            published ==> final(self).bus.published@ == old(self).bus.published@.push(
                LifecycleEvent::Crashed { exit_code },
            ),
            !published ==> final(self).bus.published@ == old(self).bus.published@,
            old(self).phase is AwaitingReadiness ==> final(self).phase is Failed,
            !(old(self).phase is AwaitingReadiness) ==> final(self).phase == old(self).phase,
    {
        self.state.child = None;
        if matches!(self.phase, Phase::AwaitingReadiness) {
            self.phase = Phase::Failed;
        }
        if self.crash_reported {
            false
        } else {
            proof {
                lemma_count_push(
                    self.bus.published@,
                    LifecycleEvent::Crashed { exit_code },
                );
                lemma_ready_port_push(
                    self.bus.published@,
                    LifecycleEvent::Crashed { exit_code },
                    self.state.port,
                );
            }
            self.crash_reported = true;
            self.bus.publish(LifecycleEvent::Crashed { exit_code });
            true
        }
    }

    /// A shutdown trigger fired — user-facing shutdown, application exit, or
    /// a programmatic request; all of them land here, from any phase. The
    /// child handle, if still present, is taken through the single guarded
    /// path and returned so the runtime can issue the one kill signal; a
    /// trigger that finds the handle already consumed gets nothing and has
    /// nothing to do. A failure of the kill itself is the runtime's to log
    /// and swallow: shutdown never fails visibly.
    pub fn begin_shutdown(&mut self) -> (kill: Option<ChildHandle>)
        requires
            old(self).wf(),
        ensures
            final(self).wf(),
            final(self).phase is ShuttingDown,
            kill == old(self).state.child,
            final(self).state.child is None,
            final(self).state.ready == old(self).state.ready,
            final(self).state.port == old(self).state.port,
            final(self).crash_reported == old(self).crash_reported,
            final(self).bus.published@ == old(self).bus.published@,
    {
        self.phase = Phase::ShuttingDown;
        self.state.terminate_once()
    }

    /// The kill, if any was owed, has been issued: shutdown is complete,
    /// whatever the prior history.
    pub fn confirm_terminated(&mut self)
        requires
            old(self).wf(),
            old(self).phase is ShuttingDown,
        ensures
            final(self).wf(),
            final(self).phase is Terminated,
            final(self).state == old(self).state,
            final(self).crash_reported == old(self).crash_reported,
            final(self).bus.published@ == old(self).bus.published@,
    {
        self.phase = Phase::Terminated;
    }

    /// Whether another readiness attempt may be scheduled: only while the
    /// race is undecided. Tearing the supervisor down, or any decisive
    /// outcome, stops further attempts.
    pub fn probe_should_continue(&self) -> (r: bool)
        ensures
            r == (self.phase is AwaitingReadiness),
    {
        matches!(self.phase, Phase::AwaitingReadiness)
    }
}

/// A `ready` event is never observable before the state's ready flag is set:
/// whenever a subscriber holds any published `ready` event, the well-formed
/// supervisor's flag is already true — and the event names the supervised
/// service's own port.
pub proof fn lemma_ready_event_implies_flag(c: Coordinator, i: int)
    requires
        c.wf(),
        0 <= i < c.bus.published@.len(),
        c.bus.published@[i] is Ready,
    ensures
        c.state.ready,
        c.bus.published@[i]->port == c.state.port,
{
    crate::bus::lemma_ready_event_counts(c.bus.published@, i);
}

/// Each lifecycle event kind is published at most once per supervised run,
/// and the decisive startup outcomes exclude one another: never both a
/// `ready` and an `error`.
pub proof fn lemma_events_at_most_once(c: Coordinator)
    requires
        c.wf(),
    ensures
        count_ready(c.bus.published@) <= 1,
        count_crashed(c.bus.published@) <= 1,
        count_error(c.bus.published@) <= 1,
        count_ready(c.bus.published@) + count_error(c.bus.published@) <= 1,
{
}

} // verus!
