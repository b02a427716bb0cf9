//! Credential resolution.
//!
//! A key-based credential is formed from the caller's home directory
//! (where the default private key lives) and the username the endpoint
//! declares. Resolution is performed afresh for every attempt and its
//! result is never cached, so a transient failure in one attempt leaves
//! the next attempt untouched.

use vstd::prelude::*;
use vstd::string::StringExecFns;

use crate::outcome::CredentialError;

verus! {

/// A key-based credential: the username to present and the path of the
/// private key to present it with.
#[derive(Debug)]
pub struct Credential {
    pub username: String,
    pub key_path: String,
}

/// The path of the default private key under a home directory.
pub open spec fn spec_key_path(home: Seq<char>) -> Seq<char> {
    home + "/.ssh/id_rsa"@
}

/// Resolves a credential from the home directory and the declared
/// username. Fails with `MissingHome` when the home directory could not
/// be determined, and with `MissingUsername` when the endpoint declares
/// no username; succeeds exactly when both are present.
pub fn resolve(home: &Option<String>, username: &Option<String>) -> (r: Result<
    Credential,
    CredentialError,
>)
    ensures
        home is None ==> r == Err::<Credential, CredentialError>(CredentialError::MissingHome),
        home is Some && username is None ==> r == Err::<Credential, CredentialError>(
            CredentialError::MissingUsername,
        ),
        home matches Some(h) ==> username matches Some(u) ==> (r matches Ok(c) && c.username@
            == u@ && c.key_path@ == spec_key_path(h@)),
{
    match (home, username) {
        (None, _) => Err(CredentialError::MissingHome),
        (Some(_), None) => Err(CredentialError::MissingUsername),
        (Some(h), Some(u)) => {
            let key_path = h.clone().concat("/.ssh/id_rsa");
            Ok(Credential { username: u.clone(), key_path })
        }
    }
}

} // verus!
