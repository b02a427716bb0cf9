use remote_sync::credential::resolve;
use remote_sync::outcome::CredentialError;
use remote_sync::request::SyncRequest;

#[test]
fn missing_home_is_fatal_to_resolution() {
    let r = resolve(&None, &Some("git".to_string()));
    assert_eq!(r.unwrap_err(), CredentialError::MissingHome);
}

#[test]
fn missing_username_is_fatal_to_resolution() {
    let r = resolve(&Some("/home/alice".to_string()), &None);
    assert_eq!(r.unwrap_err(), CredentialError::MissingUsername);
}

#[test]
fn missing_home_is_reported_before_missing_username() {
    let r = resolve(&None, &None);
    assert_eq!(r.unwrap_err(), CredentialError::MissingHome);
}

#[test]
fn resolution_builds_the_default_key_path() {
    let r = resolve(&Some("/home/alice".to_string()), &Some("git".to_string()));
    let c = r.unwrap();
    assert_eq!(c.username, "git");
    assert_eq!(c.key_path, "/home/alice/.ssh/id_rsa");
}

#[test]
fn scp_like_url_declares_a_username() {
    let req = SyncRequest::new("git@example.com:owner/repo.git".to_string());
    assert_eq!(req.declared_username(), Some("git".to_string()));
}

#[test]
fn url_without_at_declares_no_username() {
    let req = SyncRequest::new("https://example.com/owner/repo.git".to_string());
    assert_eq!(req.declared_username(), None);
}

#[test]
fn empty_username_counts_as_absent() {
    let req = SyncRequest::new("@example.com:owner/repo.git".to_string());
    assert_eq!(req.declared_username(), None);
}

#[test]
fn only_the_first_at_delimits_the_username() {
    let req = SyncRequest::new("user@host@rest".to_string());
    assert_eq!(req.declared_username(), Some("user".to_string()));
}
