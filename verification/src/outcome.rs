//! The outcome taxonomy of one synchronization attempt.
//!
//! An interrupted blocking call is deliberately absent here: interruption
//! is not an error, it is absorbed and retried before an outcome is ever
//! formed (see the wait module).

use vstd::prelude::*;

verus! {

/// A genuine transport-level failure of one synchronization attempt.
#[derive(Clone, Copy, Debug, PartialEq, Eq, Structural)]
pub enum TransportError {
    /// The credential was presented and rejected by the remote side.
    Auth,
    /// The endpoint was unreachable or the protocol failed.
    Network,
}

/// Why credential resolution failed for one attempt.
#[derive(Clone, Copy, Debug, PartialEq, Eq, Structural)]
pub enum CredentialError {
    /// The home directory, where the key material lives, could not be
    /// determined.
    MissingHome,
    /// The endpoint URL declares no username, so no key-based credential
    /// can be formed.
    MissingUsername,
}

/// The reason recorded when an attempt fails. Each reason is fatal to its
/// attempt only; the attempt loop continues regardless.
#[derive(Clone, Copy, Debug, PartialEq, Eq, Structural)]
pub enum FailureReason {
    Credential(CredentialError),
    /// The working directory for the attempt could not be created.
    Workspace,
    Transport(TransportError),
}

/// The terminal outcome of one attempt. It is only recorded, never acted
/// upon by later attempts.
#[derive(Clone, Copy, Debug, PartialEq, Eq, Structural)]
pub enum Outcome {
    Success,
    Failure(FailureReason),
}

/// The human-readable line printed for an outcome.
pub open spec fn spec_describe(outcome: Outcome) -> Seq<char> {
    match outcome {
        Outcome::Success => "Cloned successfully!"@,
        Outcome::Failure(FailureReason::Credential(CredentialError::MissingHome)) => "error: home directory could not be determined"@,
        Outcome::Failure(FailureReason::Credential(CredentialError::MissingUsername)) => "error: endpoint URL declares no username"@,
        Outcome::Failure(FailureReason::Workspace) => "error: could not create a workspace"@,
        Outcome::Failure(FailureReason::Transport(TransportError::Auth)) => "error: authentication rejected"@,
        Outcome::Failure(FailureReason::Transport(TransportError::Network)) => "error: endpoint unreachable"@,
    }
}

impl Outcome {
    /// One line per attempt, suitable for a log.
    pub fn describe(&self) -> (s: String)
        ensures
            s@ == spec_describe(*self),
    {
        match self {
            Outcome::Success => "Cloned successfully!".to_owned(),
            Outcome::Failure(FailureReason::Credential(CredentialError::MissingHome)) => "error: home directory could not be determined".to_owned(),
            Outcome::Failure(FailureReason::Credential(CredentialError::MissingUsername)) => "error: endpoint URL declares no username".to_owned(),
            Outcome::Failure(FailureReason::Workspace) => "error: could not create a workspace".to_owned(),
            Outcome::Failure(FailureReason::Transport(TransportError::Auth)) => "error: authentication rejected".to_owned(),
            Outcome::Failure(FailureReason::Transport(TransportError::Network)) => "error: endpoint unreachable".to_owned(),
        }
    }
}

} // verus!
