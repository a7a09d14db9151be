//! Supervision core for a single long-running sidecar service process.
//!
//! The library holds the decision logic of a process supervisor: spawning a
//! service exactly once, relaying its output lines, polling a readiness
//! endpoint under a bounded time budget, publishing lifecycle transitions
//! exactly once, and guaranteeing that the child process is terminated
//! exactly once no matter which shutdown trigger fires first. The
//! surrounding runtime (process handles, HTTP requests, sleeps, event
//! delivery) performs the actual effects and feeds their outcomes back into
//! the verified state machines defined here.

pub mod bus;
pub mod coordinator;
pub mod digits;
pub mod health;
pub mod probe;
pub mod relay;
pub mod state;
