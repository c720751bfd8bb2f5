use vstd::prelude::*;

verus! {

/// Whether `bcrypt::verify` finds that `password` belongs to `hash`; `None`
/// where it reports an error, such as a hash it cannot read.
pub uninterp spec fn password_matches(password: Seq<char>, hash: Seq<char>) -> Option<bool>;

/// Asks `bcrypt::verify` whether `password` belongs to `hash`. The answer
/// depends on the two strings alone: the salt and the cost are read from
/// the hash.
#[verifier::external_body]
pub(crate) fn check_password(password: &str, hash: &str) -> (found: Option<bool>)
    ensures
        found == password_matches(password@, hash@),
{
    bcrypt::verify(password, hash).ok()
}

/// Hashes `password` with `bcrypt::hash` at `bcrypt::DEFAULT_COST`. The
/// salt is random, so nothing is claimed of which hash comes back, only
/// that `bcrypt::verify` accepts the password for it: `verify` hashes the
/// password again with the salt and cost it reads from the hash.
#[verifier::external_body]
pub(crate) fn hash_password(password: &str) -> (hash: Option<String>)
    ensures
        hash matches Some(h) ==> password_matches(password@, h@) == Some(true),
{
    bcrypt::hash(password, bcrypt::DEFAULT_COST).ok()
}

} // verus!
