use vstd::prelude::*;

use crate::util::password::{check_password, password_matches};

verus! {

/// Checks a password against a stored hash.
pub struct CredentialVerifier;

impl CredentialVerifier {
    /// Holds when `password` belongs to `hash`. An error of the hash
    /// engine counts as a mismatch.
    pub open spec fn verifies(password: Seq<char>, hash: Seq<char>) -> bool {
        password_matches(password, hash) == Some(true)
    }

    /// Decides from the outcome of the comparison whether the password is
    /// accepted: a mismatch and an error of the hash engine are both a no.
    pub fn accepts(outcome: Option<bool>) -> (ok: bool)
        ensures
            ok == (outcome == Some(true)),
    {
        match outcome {
            Some(matched) => matched,
            None => false,
        }
    }

    /// Whether `plain_password` belongs to `stored_hash`.
    pub fn verify(plain_password: &str, stored_hash: &str) -> (ok: bool)
        ensures
            ok == Self::verifies(plain_password@, stored_hash@),
    {
        Self::accepts(check_password(plain_password, stored_hash))
    }
}

} // verus!
