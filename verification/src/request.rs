//! The synchronization request and the username its endpoint declares.
//!
//! An endpoint such as `git@example.com:owner/repo` declares a username:
//! the characters before the first `@`. The key-based credential is formed
//! for that username; an endpoint that declares none cannot be given a
//! key-based credential.

use vstd::prelude::*;
use vstd::string::StrSliceExecFns;

verus! {

/// The immutable description of what is to be synchronized: the remote
/// endpoint URL. A fresh workspace is chosen per attempt, so no
/// destination path is carried here.
pub struct SyncRequest {
    pub url: String,
}

/// The position of the first `@` in `s`, if any.
pub open spec fn spec_first_at(s: Seq<char>) -> Option<int>
    decreases s.len(),
{
    if s.len() == 0 {
        None
    } else if s[0] == '@' {
        Some(0)
    } else {
        match spec_first_at(s.skip(1)) {
            Some(i) => Some(i + 1),
            None => None,
        }
    }
}

/// The username a URL declares: the non-empty run of characters before
/// its first `@`. A URL without `@`, or one that starts with it, declares
/// none.
pub open spec fn spec_declared_username(url: Seq<char>) -> Option<Seq<char>> {
    match spec_first_at(url) {
        Some(i) => if i == 0 {
            None
        } else {
            Some(url.subrange(0, i))
        },
        None => None,
    }
}

/// A character `@` at `i`, with none before it, is the first one.
proof fn lemma_first_at_found(s: Seq<char>, i: int)
    requires
        0 <= i < s.len(),
        s[i] == '@',
        forall|j: int| 0 <= j < i ==> s[j] != '@',
    ensures
        spec_first_at(s) == Some(i),
    decreases i,
{
    if i == 0 {
    } else {
        lemma_first_at_found(s.skip(1), i - 1);
    }
}

/// A sequence without `@` has no first `@`.
proof fn lemma_first_at_none(s: Seq<char>)
    requires
        forall|j: int| 0 <= j < s.len() ==> s[j] != '@',
    ensures
        spec_first_at(s) is None,
    decreases s.len(),
{
    if s.len() == 0 {
    } else {
        lemma_first_at_none(s.skip(1));
    }
}

impl SyncRequest {
    pub fn new(url: String) -> (r: SyncRequest)
        ensures
            r.url@ == url@,
    {
        SyncRequest { url }
    }

    /// The username the endpoint declares, if any: the characters before
    /// the first `@`, when that run is non-empty.
    pub fn declared_username(&self) -> (r: Option<String>)
        ensures
            (match r {
                Some(u) => spec_declared_username(self.url@) == Some(u@),
                None => spec_declared_username(self.url@) is None,
            }),
    {
        let s: &str = self.url.as_str();
        let n: usize = s.unicode_len();
        let mut i: usize = 0;
        while i < n
            invariant
                n == s@.len(),
                s@ == self.url@,
                i <= n,
                forall|j: int| 0 <= j < i ==> s@[j] != '@',
            decreases n - i,
        {
            let c = s.get_char(i);
            if c == '@' {
                proof {
                    lemma_first_at_found(s@, i as int);
                }
                if i == 0 {
                    return None;
                }
                let u = s.substring_char(0, i).to_owned();
                return Some(u);
            }
            i = i + 1;
        }
        proof {
            lemma_first_at_none(s@);
        }
        None
    }
}

} // verus!
