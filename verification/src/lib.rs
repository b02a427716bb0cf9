//! A verified resilience core for a repeated, attempt-bounded remote
//! repository synchronization.
//!
//! The library models the part of such a program that makes decisions:
//! how an interrupted blocking wait is absorbed and retried, how a
//! credential is resolved afresh for every attempt, and how a bounded
//! sequence of attempts acquires and releases a workspace around each
//! synchronization. The blocking calls themselves (the transport, the
//! filesystem, process spawning) are performed by an unverified shell
//! around this crate, which feeds their results back in as events.

pub mod credential;
pub mod orchestrator;
pub mod outcome;
pub mod request;
pub mod wait;
