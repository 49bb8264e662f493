//! The key set a foreign verification runs against: key-id to PEM-encoded
//! public key material.
//!
//! A key set is fetched fresh from the remote endpoint for every
//! verification and owned by that one call — deliberately uncached, since
//! caching would change the failure and availability semantics. The fetch
//! itself is I/O and lives outside the library; this module turns its
//! outcome into a `KeySet` or a `NetworkError` and resolves key-ids.

use vstd::prelude::*;

use crate::errors::AuthError;

verus! {

/// First-match resolution of `kid` among `entries`.
pub open spec fn key_lookup(entries: Seq<(String, String)>, kid: Seq<char>) -> Option<Seq<char>>
    decreases entries.len(),
{
    if entries.len() == 0 {
        None
    } else if entries[0].0@ == kid {
        Some(entries[0].1@)
    } else {
        key_lookup(entries.drop_first(), kid)
    }
}

/// Scanning past a prefix that does not hold `kid` leaves the resolution
/// unchanged.
proof fn lemma_key_lookup_skip(entries: Seq<(String, String)>, kid: Seq<char>, i: int)
    requires
        0 <= i <= entries.len(),
        forall|j: int| 0 <= j < i ==> entries[j].0@ != kid,
    ensures
        key_lookup(entries, kid) == key_lookup(entries.skip(i), kid),
    decreases i,
{
    if i == 0 {
        assert(entries.skip(0) =~= entries);
    } else {
        lemma_key_lookup_skip(entries, kid, i - 1);
        assert(entries.skip(i - 1).drop_first() =~= entries.skip(i));
        assert(entries.skip(i - 1)[0] == entries[i - 1]);
    }
}

/// A mapping from key-id to PEM-encoded public key material, as fetched
/// from the remote endpoint.
#[derive(Debug, PartialEq, Eq)]
pub struct KeySet {
    pub entries: Vec<(String, String)>,
}

impl KeySet {
    /// What looking up `kid` yields: the PEM of the first entry with that
    /// key-id, or nothing.
    pub open spec fn spec_lookup(&self, kid: Seq<char>) -> Option<Seq<char>> {
        key_lookup(self.entries@, kid)
    }

    /// Resolves a key-id to its PEM material.
    pub fn lookup(&self, kid: &str) -> (r: Option<&String>)
        ensures
            (match r {
                Some(pem) => self.spec_lookup(kid@) == Some(pem@),
                None => self.spec_lookup(kid@) is None,
            }),
    {
        let key = kid.to_owned();
        let n = self.entries.len();
        let mut i: usize = 0;
        while i < n
            invariant
                i <= n,
                n == self.entries@.len(),
                key@ == kid@,
                forall|j: int| 0 <= j < i ==> self.entries@[j].0@ != kid@,
            decreases n - i,
        {
            let entry = &self.entries[i];
            if entry.0 == key {
                proof {
                    lemma_key_lookup_skip(self.entries@, kid@, i as int);
                    assert(self.entries@.skip(i as int)[0] == self.entries@[i as int]);
                }
                return Some(&entry.1);
            }
            i += 1;
        }
        proof {
            lemma_key_lookup_skip(self.entries@, kid@, n as int);
            assert(self.entries@.skip(n as int) =~= Seq::<(String, String)>::empty());
        }
        None
    }
}

/// Turns the outcome of a remote key-set fetch into a `KeySet`, mapping any
/// fetch failure — timeout, connection error, non-success status, malformed
/// body — to `NetworkError` with the underlying cause kept for diagnostics.
pub fn keyset_from_fetch(fetched: Result<Vec<(String, String)>, String>) -> (r: Result<
    KeySet,
    AuthError,
>)
    ensures
        (match fetched {
            Ok(entries) => r matches Ok(ks) && ks.entries@ == entries@,
            Err(cause) => r == Err::<KeySet, AuthError>(AuthError::NetworkError(cause)),
        }),
{
    match fetched {
        Ok(entries) => Ok(KeySet { entries }),
        Err(cause) => Err(AuthError::NetworkError(cause)),
    }
}

} // verus!
