//! Supervised-service state: the port, the ready flag, and the take-once
//! child handle.
//!
//! The child handle is the one shared mutable resource of the whole
//! supervisor. Several independent shutdown triggers may race to kill the
//! process; the runtime serializes their access (a mutex around this state),
//! and [`ServerState::terminate_once`] guarantees that whatever order the
//! serialization produces, the handle is surrendered to exactly one caller:
//! the transition from present to absent is irreversible, and every later
//! caller observes "already empty" and does nothing.

use vstd::prelude::*;

verus! {

/// The supervisor's reference to the spawned process. The runtime maps the
/// identifier back to the real process handle; holding the `ChildHandle` is
/// holding the sole right to kill that process.
#[derive(PartialEq, Eq, Structural, Debug)]
pub struct ChildHandle {
    pub id: u64,
}

/// State of the supervised service, created once before the child is
/// spawned and kept for the whole run.
#[derive(PartialEq, Eq, Structural, Debug)]
pub struct ServerState {
    /// The port the service is expected to listen on; never changes.
    pub port: u16,
    /// Set true exactly once, when readiness is confirmed.
    pub ready: bool,
    /// The take-once handle: present from spawn until the first termination
    /// trigger consumes it, absent ever after.
    pub child: Option<ChildHandle>,
}

/// What one guarded take of the child handle does to the state: the handle,
/// if present, moves out, and nothing else changes.
pub open spec fn take_once(s: ServerState) -> (ServerState, Option<ChildHandle>) {
    (ServerState { child: None, ..s }, s.child)
}

impl ServerState {
    /// The state before the child is spawned: not ready, no handle.
    pub fn new(port: u16) -> (r: ServerState)
        ensures
            r.port == port,
            !r.ready,
            r.child is None,
    {
        ServerState { port, ready: false, child: None }
    }

    /// The single shared termination path. Under the runtime's mutual
    /// exclusion, remove the child handle from the state and hand it to the
    /// caller, who issues the kill signal; if no handle is present — an
    /// earlier trigger consumed it, or the spawn never succeeded — this is a
    /// silent no-op that returns nothing. No caller may kill from a handle
    /// read earlier: the kill right is exactly the returned handle.
    pub fn terminate_once(&mut self) -> (kill: Option<ChildHandle>)
        ensures
            (*final(self), kill) == take_once(*old(self)),
            final(self).port == old(self).port,
            final(self).ready == old(self).ready,
            final(self).child is None,
            kill == old(self).child,
    {
        self.child.take()
    }
}

/// However many termination triggers race on one state, exactly one of them
/// is handed the handle: after the first take has consumed it, a second take
/// returns nothing and changes nothing, so at most one kill signal is ever
/// issued to the underlying process.
pub proof fn lemma_terminate_once_is_exclusive(s0: ServerState)
    requires
        s0.child is Some,
    ensures
        ({
            let (s1, kill1) = take_once(s0);
            let (s2, kill2) = take_once(s1);
            &&& kill1 == s0.child
            &&& kill1 is Some
            &&& kill2 is None
            &&& s2 == s1
        }),
{
}

/// Terminating after the child is already gone — it exited naturally and
/// termination detection consumed the handle, or another trigger was first —
/// is a no-op: nothing is returned, and the state is left exactly as it was.
pub proof fn lemma_terminate_once_after_exit(s0: ServerState)
    requires
        s0.child is None,
    ensures
        ({
            let (s1, kill) = take_once(s0);
            &&& kill is None
            &&& s1 == s0
        }),
{
}

} // verus!
