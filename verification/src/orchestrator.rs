//! The retry orchestrator: a bounded sequence of independent attempts.
//!
//! Each attempt acquires a fresh workspace, resolves a fresh credential,
//! performs one synchronization (absorbing interruptions, see the wait
//! module), records its outcome and releases the workspace — then the
//! next attempt begins, whatever the outcome was. The orchestrator is a
//! state machine: the unverified shell asks it what to do next, performs
//! the blocking call, and feeds the result back in. The machine's
//! invariant accounts for workspaces and credentials, so that at the end
//! every acquired workspace has been released exactly once and every
//! attempt that held a workspace resolved exactly one credential.
//!
//! A failed workspace release does not appear among the transitions: it
//! is fatal to the whole process (the shell aborts rather than leak), so
//! control never returns to the machine in that case.

use vstd::prelude::*;

use crate::credential::resolve;
use crate::outcome::{CredentialError, FailureReason, Outcome, TransportError};
use crate::request::{spec_declared_username, SyncRequest};
use crate::wait::{
    lemma_interruption_insensitive, spec_strip_interruptions, spec_sync_result, WaitEvent,
};

verus! {

/// Where the current attempt stands. Every attempt passes through these
/// phases in order; a failure skips ahead to the release (or, when no
/// workspace exists yet, straight to the record).
#[derive(Clone, Copy, Debug, PartialEq, Eq, Structural)]
pub enum Phase {
    /// No attempt is under way and the budget is not yet exhausted.
    Pending,
    /// Waiting for the workspace of the current attempt to be created.
    Acquiring,
    /// Waiting for the credential of the current attempt to be resolved.
    Resolving,
    /// Waiting on the transport; interruptions are absorbed here.
    Syncing,
    /// The attempt's outcome is decided; its workspace must be released
    /// before the outcome becomes final.
    Releasing(Outcome),
    /// All budgeted attempts are complete.
    Finished,
}

/// What the orchestrator asks the shell to do next.
#[derive(Clone, Copy, Debug, PartialEq, Eq, Structural)]
pub enum Action {
    /// Start the next attempt.
    BeginAttempt,
    /// Create a fresh, uniquely named working directory.
    AcquireWorkspace,
    /// Resolve a fresh credential for this attempt.
    ResolveCredential,
    /// Issue (or re-issue) the blocking synchronization wait.
    IssueWait,
    /// Remove this attempt's working directory.
    ReleaseWorkspace,
    /// Stop: the attempt budget is exhausted.
    Finish,
}

/// The phase after an outcome has been recorded: the next attempt is
/// pending unless the budget is now exhausted.
pub open spec fn spec_phase_after_record(done: int, budget: int) -> Phase {
    if done == budget {
        Phase::Finished
    } else {
        Phase::Pending
    }
}

/// Drives a fixed-size sequence of attempts and accounts for their
/// resources. `completed` holds the outcomes of finished attempts in
/// order.
pub struct Orchestrator {
    pub budget: usize,
    pub completed: Vec<Outcome>,
    pub phase: Phase,
    pub workspaces_created: usize,
    pub workspaces_released: usize,
    pub credentials_resolved: usize,
}

impl Orchestrator {
    /// The current attempt holds a live workspace.
    pub open spec fn holds_workspace(self) -> bool {
        self.phase is Resolving || self.phase is Syncing || self.phase matches Phase::Releasing(_)
    }

    /// An attempt is under way.
    pub open spec fn in_attempt(self) -> bool {
        self.phase is Acquiring || self.holds_workspace()
    }

    /// The machine's invariant. Beyond phase bookkeeping it states the
    /// resource accounting: at most one live workspace exists, every
    /// released workspace was created, and each attempt that acquired a
    /// workspace resolves exactly one credential.
    pub open spec fn wf(self) -> bool {
        &&& self.completed@.len() <= self.budget
        &&& (self.phase is Pending ==> self.completed@.len() < self.budget)
        &&& (self.in_attempt() ==> self.completed@.len() < self.budget)
        &&& (self.phase is Finished ==> self.completed@.len() == self.budget)
        &&& self.workspaces_created as int == self.workspaces_released as int + (
        if self.holds_workspace() {
            1int
        } else {
            0int
        })
        &&& self.credentials_resolved as int + (
        if self.phase is Resolving {
            1int
        } else {
            0int
        }) == self.workspaces_created as int
        &&& self.workspaces_created as int <= self.completed@.len() + (
        if self.holds_workspace() {
            1int
        } else {
            0int
        })
    }

    /// A fresh orchestrator: nothing attempted, nothing created. With a
    /// budget of zero it is finished at once.
    pub fn new(budget: usize) -> (o: Orchestrator)
        ensures
            o.wf(),
            o.budget == budget,
            o.completed@.len() == 0,
            o.workspaces_created == 0,
            o.workspaces_released == 0,
            o.credentials_resolved == 0,
            o.phase == (if budget == 0 {
                Phase::Finished
            } else {
                Phase::Pending
            }),
    {
        Orchestrator {
            budget,
            completed: Vec::new(),
            phase: if budget == 0 {
                Phase::Finished
            } else {
                Phase::Pending
            },
            workspaces_created: 0,
            workspaces_released: 0,
            credentials_resolved: 0,
        }
    }

    /// What the shell is owed to do next, determined by the phase alone.
    pub open spec fn spec_next_action(self) -> Action {
        match self.phase {
            Phase::Pending => Action::BeginAttempt,
            Phase::Acquiring => Action::AcquireWorkspace,
            Phase::Resolving => Action::ResolveCredential,
            Phase::Syncing => Action::IssueWait,
            Phase::Releasing(_) => Action::ReleaseWorkspace,
            Phase::Finished => Action::Finish,
        }
    }

    pub fn next_action(&self) -> (a: Action)
        ensures
            a == self.spec_next_action(),
    {
        match self.phase {
            Phase::Pending => Action::BeginAttempt,
            Phase::Acquiring => Action::AcquireWorkspace,
            Phase::Resolving => Action::ResolveCredential,
            Phase::Syncing => Action::IssueWait,
            Phase::Releasing(_) => Action::ReleaseWorkspace,
            Phase::Finished => Action::Finish,
        }
    }

    pub fn is_finished(&self) -> (b: bool)
        ensures
            b == (self.phase is Finished),
    {
        match self.phase {
            Phase::Finished => true,
            _ => false,
        }
    }

    /// Starts the next attempt.
    pub fn begin_attempt(&mut self)
        requires
            old(self).wf(),
            old(self).phase is Pending,
        ensures
            final(self).wf(),
            final(self).phase is Acquiring,
            final(self).budget == old(self).budget,
            final(self).completed@ == old(self).completed@,
            final(self).workspaces_created == old(self).workspaces_created,
            final(self).workspaces_released == old(self).workspaces_released,
            final(self).credentials_resolved == old(self).credentials_resolved,
    {
        self.phase = Phase::Acquiring;
    }

    /// Records whether the attempt's workspace was created. On failure
    /// the attempt is over at once — there is nothing to synchronize into
    /// and nothing to release — and its failure is recorded.
    pub fn workspace_result(&mut self, ok: bool)
        requires
            old(self).wf(),
            old(self).phase is Acquiring,
        ensures
            final(self).wf(),
            final(self).budget == old(self).budget,
            final(self).workspaces_released == old(self).workspaces_released,
            final(self).credentials_resolved == old(self).credentials_resolved,
            ok ==> final(self).phase is Resolving && final(self).completed@ == old(self).completed@ && final(self).workspaces_created == old(self).workspaces_created + 1,
            !ok ==> final(self).workspaces_created == old(self).workspaces_created && final(self).completed@ == old(self).completed@.push(Outcome::Failure(FailureReason::Workspace))
                && final(self).phase == spec_phase_after_record(
                old(self).completed@.len() as int + 1,
                old(self).budget as int,
            ),
    {
        if ok {
            self.workspaces_created = self.workspaces_created + 1;
            self.phase = Phase::Resolving;
        } else {
            self.record(Outcome::Failure(FailureReason::Workspace));
        }
    }

    /// Records the result of this attempt's credential resolution. A
    /// failure decides the attempt's outcome; the workspace still has to
    /// be released.
    pub fn credential_result(&mut self, r: &Result<crate::credential::Credential, CredentialError>)
        requires
            old(self).wf(),
            old(self).phase is Resolving,
        ensures
            final(self).wf(),
            final(self).budget == old(self).budget,
            final(self).completed@ == old(self).completed@,
            final(self).workspaces_created == old(self).workspaces_created,
            final(self).workspaces_released == old(self).workspaces_released,
            final(self).credentials_resolved == old(self).credentials_resolved + 1,
            (*r) is Ok ==> final(self).phase is Syncing,
            (*r) matches Err(ce) ==> final(self).phase == Phase::Releasing(
                Outcome::Failure(FailureReason::Credential(ce)),
            ),
    {
        self.credentials_resolved = self.credentials_resolved + 1;
        match r {
            Ok(_) => {
                self.phase = Phase::Syncing;
            }
            Err(ce) => {
                self.phase = Phase::Releasing(Outcome::Failure(FailureReason::Credential(*ce)));
            }
        }
    }

    /// Feeds in what one issue of the blocking wait came back with. An
    /// interruption changes nothing at all — the identical wait is simply
    /// owed again — while a genuine event decides the attempt's outcome.
    pub fn sync_event(&mut self, e: WaitEvent)
        requires
            old(self).wf(),
            old(self).phase is Syncing,
        ensures
            final(self).wf(),
            final(self).budget == old(self).budget,
            final(self).completed@ == old(self).completed@,
            final(self).workspaces_created == old(self).workspaces_created,
            final(self).workspaces_released == old(self).workspaces_released,
            final(self).credentials_resolved == old(self).credentials_resolved,
            e is Interrupted ==> *final(self) == *old(self),
            e is Ready ==> final(self).phase == Phase::Releasing(Outcome::Success),
            e matches WaitEvent::Failed(te) ==> final(self).phase == Phase::Releasing(
                Outcome::Failure(FailureReason::Transport(te)),
            ),
    {
        match e {
            WaitEvent::Interrupted => {},
            WaitEvent::Ready => {
                self.phase = Phase::Releasing(Outcome::Success);
            }
            WaitEvent::Failed(te) => {
                self.phase = Phase::Releasing(Outcome::Failure(FailureReason::Transport(te)));
            }
        }
    }

    /// Records that the attempt's workspace was removed; the attempt's
    /// outcome becomes final only now. (A removal failure never reaches
    /// this machine: the shell treats it as fatal to the whole process.)
    pub fn workspace_released(&mut self)
        requires
            old(self).wf(),
            old(self).phase matches Phase::Releasing(_),
        ensures
            final(self).wf(),
            final(self).budget == old(self).budget,
            final(self).workspaces_created == old(self).workspaces_created,
            final(self).workspaces_released == old(self).workspaces_released + 1,
            final(self).credentials_resolved == old(self).credentials_resolved,
            old(self).phase matches Phase::Releasing(out) ==> final(self).completed@ == old(self).completed@.push(out),
            final(self).phase == spec_phase_after_record(
                old(self).completed@.len() as int + 1,
                old(self).budget as int,
            ),
    {
        self.workspaces_released = self.workspaces_released + 1;
        let out = match self.phase {
            Phase::Releasing(out) => out,
            _ => Outcome::Failure(FailureReason::Workspace),
        };
        self.record(out);
    }

    /// Appends a final outcome and moves on: to the next attempt, or to
    /// the end once the budget is spent.
    fn record(&mut self, out: Outcome)
        requires
            old(self).completed@.len() < old(self).budget,
        ensures
            final(self).budget == old(self).budget,
            final(self).completed@ == old(self).completed@.push(out),
            final(self).workspaces_created == old(self).workspaces_created,
            final(self).workspaces_released == old(self).workspaces_released,
            final(self).credentials_resolved == old(self).credentials_resolved,
            final(self).phase == spec_phase_after_record(
                old(self).completed@.len() as int + 1,
                old(self).budget as int,
            ),
    {
        self.completed.push(out);
        self.phase = if self.completed.len() == self.budget {
            Phase::Finished
        } else {
            Phase::Pending
        };
    }
}

/// Workspace cleanliness: once the budget is spent, every workspace that
/// was ever created has been released — none remains.
pub proof fn lemma_workspace_cleanliness(o: Orchestrator)
    requires
        o.wf(),
        o.phase is Finished,
    ensures
        o.workspaces_created == o.workspaces_released,
{
}

/// Credential freshness: once the budget is spent, exactly one credential
/// was resolved for each attempt that held a workspace — never fewer,
/// never more, and none was carried from one attempt to the next.
pub proof fn lemma_credential_freshness(o: Orchestrator)
    requires
        o.wf(),
        o.phase is Finished,
    ensures
        o.credentials_resolved == o.workspaces_created,
{
}

/// The outcome of the synchronization proper, given what the wait
/// concluded with.
pub open spec fn spec_outcome_of_sync(r: Result<(), TransportError>) -> Outcome {
    match r {
        Ok(_) => Outcome::Success,
        Err(e) => Outcome::Failure(FailureReason::Transport(e)),
    }
}

/// The outcome one attempt is owed, given its environment: whether its
/// workspace could be created, whether a home directory and a declared
/// username were present, and what its waits came back with. `None`
/// means the attempt would still be blocked (its recorded events hold
/// interruptions alone).
pub open spec fn spec_attempt_outcome(
    workspace_ok: bool,
    home_present: bool,
    username_present: bool,
    events: Seq<WaitEvent>,
) -> Option<Outcome> {
    if !workspace_ok {
        Some(Outcome::Failure(FailureReason::Workspace))
    } else if !home_present {
        Some(Outcome::Failure(FailureReason::Credential(CredentialError::MissingHome)))
    } else if !username_present {
        Some(Outcome::Failure(FailureReason::Credential(CredentialError::MissingUsername)))
    } else {
        match spec_sync_result(events) {
            Some(r) => Some(spec_outcome_of_sync(r)),
            None => None,
        }
    }
}

/// Interruption-insensitivity, lifted to a whole attempt: an attempt's
/// outcome under signal pressure is exactly its outcome with every
/// interruption removed from its waits. Concurrent signal delivery can
/// never be the cause of a failure, nor rob an attempt of a success.
pub proof fn lemma_outcome_interruption_insensitive(
    workspace_ok: bool,
    home_present: bool,
    username_present: bool,
    events: Seq<WaitEvent>,
)
    ensures
        spec_attempt_outcome(workspace_ok, home_present, username_present, events)
            == spec_attempt_outcome(
            workspace_ok,
            home_present,
            username_present,
            spec_strip_interruptions(events),
        ),
{
    lemma_interruption_insensitive(events);
}

/// One attempt's slice of the world: whether its workspace creation will
/// succeed, the home directory visible to it, and what its blocking
/// waits will come back with.
pub struct AttemptEnv {
    pub workspace_ok: bool,
    pub home: Option<String>,
    pub events: Vec<WaitEvent>,
}

/// The outcome an attempt is owed in a given environment, for an
/// endpoint that does or does not declare a username.
pub open spec fn spec_env_outcome(env: AttemptEnv, username_present: bool) -> Option<Outcome> {
    spec_attempt_outcome(env.workspace_ok, env.home is Some, username_present, env.events@)
}

/// How many of these environments let a workspace be created.
pub open spec fn spec_acquired_count(envs: Seq<AttemptEnv>) -> int
    decreases envs.len(),
{
    if envs.len() == 0 {
        0
    } else {
        spec_acquired_count(envs.drop_last()) + (if envs.last().workspace_ok {
            1int
        } else {
            0int
        })
    }
}

/// Runs the whole bounded sequence: exactly `budget` attempts, one
/// environment each, none skipped and none repeated, and returns only
/// after the last attempt's workspace is gone. Each recorded outcome is
/// a function of its own attempt's environment alone — earlier outcomes
/// cannot leak into later attempts — and every created workspace is
/// released, with exactly one credential resolution per workspace held.
pub fn run(request: &SyncRequest, budget: usize, envs: &Vec<AttemptEnv>) -> (o: Orchestrator)
    requires
        envs@.len() == budget,
        forall|k: int|
            0 <= k < envs@.len() ==> #[trigger] spec_env_outcome(
                envs@[k],
                spec_declared_username(request.url@) is Some,
            ) is Some,
    ensures
        o.wf(),
        o.phase is Finished,
        o.budget == budget,
        o.completed@.len() == budget,
        forall|k: int|
            0 <= k < budget ==> #[trigger] o.completed@[k] == spec_env_outcome(
                envs@[k],
                spec_declared_username(request.url@) is Some,
            )->Some_0,
        o.workspaces_created as int == spec_acquired_count(envs@),
        o.workspaces_released == o.workspaces_created,
        o.credentials_resolved == o.workspaces_created,
{
    let ghost upresent: bool = spec_declared_username(request.url@) is Some;
    let mut o = Orchestrator::new(budget);
    let mut i: usize = 0;
    while i < budget
        invariant
            o.wf(),
            o.budget == budget,
            envs@.len() == budget,
            i <= budget,
            o.completed@.len() == i,
            i < budget ==> o.phase is Pending,
            i == budget ==> o.phase is Finished,
            upresent == (spec_declared_username(request.url@) is Some),
            forall|k: int|
                0 <= k < envs@.len() ==> #[trigger] spec_env_outcome(envs@[k], upresent) is Some,
            forall|k: int|
                0 <= k < i ==> #[trigger] o.completed@[k] == spec_env_outcome(
                    envs@[k],
                    upresent,
                )->Some_0,
            o.workspaces_created as int == spec_acquired_count(envs@.take(i as int)),
            o.workspaces_released == o.workspaces_created,
            o.credentials_resolved == o.workspaces_created,
        decreases budget - i,
    {
        o.begin_attempt();
        let env = &envs[i];
        o.workspace_result(env.workspace_ok);
        if env.workspace_ok {
            let username = request.declared_username();
            let cred = resolve(&env.home, &username);
            let cred_ok = cred.is_ok();
            o.credential_result(&cred);
            if cred_ok {
                let mut j: usize = 0;
                let mut syncing: bool = true;
                proof {
                    assert(env.events@.skip(0) =~= env.events@);
                    assert(spec_env_outcome(envs@[i as int], upresent) is Some);
                }
                while syncing
                    invariant
                        o.wf(),
                        o.budget == budget,
                        envs@.len() == budget,
                        i < budget,
                        env == &envs@[i as int],
                        upresent == (spec_declared_username(request.url@) is Some),
                        forall|k: int|
                            0 <= k < envs@.len() ==> #[trigger] spec_env_outcome(
                                envs@[k],
                                upresent,
                            ) is Some,
                        forall|k: int|
                            0 <= k < i ==> #[trigger] o.completed@[k] == spec_env_outcome(
                                envs@[k],
                                upresent,
                            )->Some_0,
                        o.completed@.len() == i,
                        o.workspaces_created as int == spec_acquired_count(envs@.take(i as int))
                            + 1,
                        o.workspaces_released as int == spec_acquired_count(envs@.take(i as int)),
                        o.credentials_resolved == o.workspaces_created,
                        j <= env.events@.len(),
                        spec_sync_result(env.events@) is Some,
                        syncing ==> o.phase is Syncing,
                        syncing ==> spec_sync_result(env.events@.skip(j as int))
                            == spec_sync_result(env.events@),
                        !syncing ==> (o.phase matches Phase::Releasing(out) && Some(out) == (
                        match spec_sync_result(env.events@) {
                            Some(r) => Some(spec_outcome_of_sync(r)),
                            None => None,
                        })),
                    decreases env.events@.len() - j + (if syncing {
                        1int
                    } else {
                        0int
                    }),
                {
                    let n: usize = env.events.len();
                    proof {
                        if j == n {
                            assert(env.events@.skip(j as int) =~= Seq::<WaitEvent>::empty());
                            assert(false);
                        }
                    }
                    let e = env.events[j];
                    proof {
                        assert(env.events@.skip(j as int)[0] == env.events@[j as int]);
                        assert(env.events@.skip(j as int).skip(1) =~= env.events@.skip(
                            j as int + 1,
                        ));
                    }
                    o.sync_event(e);
                    j = j + 1;
                    match o.phase {
                        Phase::Syncing => {},
                        Phase::Releasing(_) => {
                            syncing = false;
                        }
                        _ => {
                            proof {
                                assert(false);
                            }
                        }
                    }
                }
            }
            o.workspace_released();
        }
        proof {
            assert(envs@.take(i + 1).drop_last() =~= envs@.take(i as int));
            assert(envs@.take(i + 1).last() == envs@[i as int]);
        }
        i = i + 1;
    }
    proof {
        assert(envs@.take(budget as int) =~= envs@);
    }
    o
}

} // verus!
