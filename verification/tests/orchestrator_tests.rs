use remote_sync::orchestrator::{run, Action, AttemptEnv, Orchestrator, Phase};
use remote_sync::outcome::{CredentialError, FailureReason, Outcome, TransportError};
use remote_sync::request::SyncRequest;
use remote_sync::wait::WaitEvent;

fn reachable_env(events: Vec<WaitEvent>) -> AttemptEnv {
    AttemptEnv { workspace_ok: true, home: Some("/home/alice".to_string()), events }
}

fn request_with_username() -> SyncRequest {
    SyncRequest::new("git@example.com:owner/repo.git".to_string())
}

#[test]
fn unreachable_endpoint_fails_every_attempt() {
    // Endpoint unreachable: every attempt records a network failure, the
    // loop still completes all its attempts, and every workspace that was
    // created has been removed.
    let n: usize = 5;
    let mut envs = Vec::new();
    for _ in 0..n {
        envs.push(reachable_env(vec![WaitEvent::Failed(TransportError::Network)]));
    }
    let o = run(&request_with_username(), n, &envs);
    assert_eq!(o.completed.len(), n);
    for out in &o.completed {
        assert_eq!(*out, Outcome::Failure(FailureReason::Transport(TransportError::Network)));
    }
    assert_eq!(o.workspaces_created, n);
    assert_eq!(o.workspaces_released, n);
}

#[test]
fn reachable_endpoint_without_pressure_succeeds_every_attempt() {
    let n: usize = 4;
    let mut envs = Vec::new();
    for _ in 0..n {
        envs.push(reachable_env(vec![WaitEvent::Ready]));
    }
    let o = run(&request_with_username(), n, &envs);
    assert_eq!(o.completed.len(), n);
    for out in &o.completed {
        assert_eq!(*out, Outcome::Success);
    }
    assert_eq!(o.workspaces_created, n);
    assert_eq!(o.workspaces_released, n);
}

#[test]
fn reachable_endpoint_under_continuous_pressure_still_succeeds() {
    // The defining regression scenario: a generator firing continuously
    // interrupts every wait many times, yet every attempt still succeeds.
    let n: usize = 4;
    let mut envs = Vec::new();
    for _ in 0..n {
        let mut events = vec![WaitEvent::Interrupted; 100];
        events.push(WaitEvent::Ready);
        envs.push(reachable_env(events));
    }
    let o = run(&request_with_username(), n, &envs);
    assert_eq!(o.completed.len(), n);
    for out in &o.completed {
        assert_eq!(*out, Outcome::Success);
    }
    assert_eq!(o.workspaces_created, n);
    assert_eq!(o.workspaces_released, n);
}

#[test]
fn budget_is_exact() {
    let o = run(&request_with_username(), 0, &Vec::new());
    assert_eq!(o.completed.len(), 0);
    assert!(o.is_finished());

    let envs = vec![reachable_env(vec![WaitEvent::Ready])];
    let o = run(&request_with_username(), 1, &envs);
    assert_eq!(o.completed.len(), 1);
    assert!(o.is_finished());
}

#[test]
fn a_failed_attempt_does_not_stop_the_loop() {
    let envs = vec![
        reachable_env(vec![WaitEvent::Failed(TransportError::Auth)]),
        reachable_env(vec![WaitEvent::Ready]),
        AttemptEnv { workspace_ok: false, home: Some("/home/alice".to_string()), events: Vec::new() },
        reachable_env(vec![WaitEvent::Interrupted, WaitEvent::Ready]),
    ];
    let o = run(&request_with_username(), 4, &envs);
    assert_eq!(
        o.completed,
        vec![
            Outcome::Failure(FailureReason::Transport(TransportError::Auth)),
            Outcome::Success,
            Outcome::Failure(FailureReason::Workspace),
            Outcome::Success,
        ]
    );
    // The attempt whose workspace could not be created acquired nothing,
    // so three workspaces were created and all three were removed.
    assert_eq!(o.workspaces_created, 3);
    assert_eq!(o.workspaces_released, 3);
}

#[test]
fn credentials_are_resolved_once_per_workspace_held() {
    let envs = vec![
        reachable_env(vec![WaitEvent::Ready]),
        AttemptEnv { workspace_ok: true, home: None, events: Vec::new() },
        AttemptEnv { workspace_ok: false, home: Some("/home/alice".to_string()), events: Vec::new() },
    ];
    let o = run(&request_with_username(), 3, &envs);
    assert_eq!(o.workspaces_created, 2);
    assert_eq!(o.credentials_resolved, 2);
    // A missing home in one attempt fails that attempt alone; the
    // resolution of the first attempt was untouched.
    assert_eq!(o.completed[0], Outcome::Success);
    assert_eq!(
        o.completed[1],
        Outcome::Failure(FailureReason::Credential(CredentialError::MissingHome))
    );
}

#[test]
fn endpoint_without_username_fails_resolution_each_attempt() {
    let req = SyncRequest::new("https://example.com/owner/repo.git".to_string());
    let envs = vec![reachable_env(Vec::new()), reachable_env(Vec::new())];
    let o = run(&req, 2, &envs);
    for out in &o.completed {
        assert_eq!(
            *out,
            Outcome::Failure(FailureReason::Credential(CredentialError::MissingUsername))
        );
    }
    // The workspace was still created and removed around each failure.
    assert_eq!(o.workspaces_created, 2);
    assert_eq!(o.workspaces_released, 2);
}

#[test]
fn machine_walks_one_attempt_through_its_phases() {
    let mut o = Orchestrator::new(1);
    assert_eq!(o.next_action(), Action::BeginAttempt);
    o.begin_attempt();
    assert_eq!(o.next_action(), Action::AcquireWorkspace);
    o.workspace_result(true);
    assert_eq!(o.next_action(), Action::ResolveCredential);
    o.credential_result(&Err(CredentialError::MissingHome));
    assert_eq!(o.next_action(), Action::ReleaseWorkspace);
    o.workspace_released();
    assert_eq!(o.next_action(), Action::Finish);
    assert!(o.is_finished());
    assert_eq!(
        o.completed,
        vec![Outcome::Failure(FailureReason::Credential(CredentialError::MissingHome))]
    );
    assert_eq!(o.workspaces_created, 1);
    assert_eq!(o.workspaces_released, 1);
    assert_eq!(o.credentials_resolved, 1);
}

#[test]
fn machine_retries_the_wait_on_interruption() {
    let mut o = Orchestrator::new(1);
    o.begin_attempt();
    o.workspace_result(true);
    o.credential_result(&Ok(remote_sync::credential::resolve(
        &Some("/home/alice".to_string()),
        &Some("git".to_string()),
    )
    .unwrap()));
    assert_eq!(o.next_action(), Action::IssueWait);
    o.sync_event(WaitEvent::Interrupted);
    // An interruption changes nothing: the identical wait is owed again.
    assert_eq!(o.next_action(), Action::IssueWait);
    assert_eq!(o.phase, Phase::Syncing);
    o.sync_event(WaitEvent::Ready);
    assert_eq!(o.next_action(), Action::ReleaseWorkspace);
    o.workspace_released();
    assert!(o.is_finished());
    assert_eq!(o.completed, vec![Outcome::Success]);
}

#[test]
fn failed_acquisition_records_without_a_release() {
    let mut o = Orchestrator::new(2);
    o.begin_attempt();
    o.workspace_result(false);
    // No workspace exists, so the next attempt is owed immediately.
    assert_eq!(o.next_action(), Action::BeginAttempt);
    assert_eq!(o.completed, vec![Outcome::Failure(FailureReason::Workspace)]);
    assert_eq!(o.workspaces_created, 0);
    assert_eq!(o.workspaces_released, 0);
}

#[test]
fn outcome_lines_are_exact() {
    assert_eq!(Outcome::Success.describe(), "Cloned successfully!");
    assert_eq!(
        Outcome::Failure(FailureReason::Transport(TransportError::Network)).describe(),
        "error: endpoint unreachable"
    );
    assert_eq!(
        Outcome::Failure(FailureReason::Transport(TransportError::Auth)).describe(),
        "error: authentication rejected"
    );
    assert_eq!(
        Outcome::Failure(FailureReason::Credential(CredentialError::MissingHome)).describe(),
        "error: home directory could not be determined"
    );
    assert_eq!(
        Outcome::Failure(FailureReason::Credential(CredentialError::MissingUsername)).describe(),
        "error: endpoint URL declares no username"
    );
    assert_eq!(
        Outcome::Failure(FailureReason::Workspace).describe(),
        "error: could not create a workspace"
    );
}
