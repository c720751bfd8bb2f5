use vstd::prelude::*;

verus! {

/// An email address: a local part of lower-case letters, digits, `_`, `+`
/// and inner dots, an `@`, and a domain that ends in two to six letters.
pub const EMAIL_PATTERN: &'static str =
    r"^([a-z0-9_+]([a-z0-9_+.]*[a-z0-9_+])?)@([a-z0-9]+([\-\.]{1}[a-z0-9]+)*\.[a-z]{2,6})";

/// A password: a lower-case letter, one of `@#$%` and a digit somewhere,
/// and at least eight characters.
pub const PASSWORD_PATTERN: &'static str = r"^((?=.*[a-z])(?=.*[@#$%])(?=.*\d).{8,16})";

/// Whether the regular expression `pattern` matches somewhere in `text`, as
/// `fancy_regex` decides it; `None` where the pattern does not compile or
/// the search gives up.
pub uninterp spec fn regex_match(pattern: Seq<char>, text: Seq<char>) -> Option<bool>;

/// Compiles `pattern` with `fancy_regex::Regex::new` and asks `is_match` of
/// `text`. An error of either call becomes `None`. The answer depends on
/// the two strings alone.
#[verifier::external_body]
pub(crate) fn is_match(pattern: &str, text: &str) -> (found: Option<bool>)
    ensures
        found == regex_match(pattern@, text@),
{
    fancy_regex::Regex::new(pattern).ok()?.is_match(text).ok()
}

/// Holds when `text` is accepted by `pattern`.
pub open spec fn accepted(pattern: Seq<char>, text: Seq<char>) -> bool {
    regex_match(pattern, text) == Some(true)
}

/// Decides from the outcome of a match whether the text is accepted: only
/// a match that was found counts.
pub fn is_accepted(found: Option<bool>) -> (ok: bool)
    ensures
        ok == (found == Some(true)),
{
    match found {
        Some(found) => found,
        None => false,
    }
}

/// Whether `email` has the form of an email address.
pub fn validate_email(email: &str) -> (ok: bool)
    ensures
        ok == accepted(EMAIL_PATTERN@, email@),
{
    is_accepted(is_match(EMAIL_PATTERN, email))
}

/// Whether `password` is strong enough.
pub fn validate_password(password: &str) -> (ok: bool)
    ensures
        ok == accepted(PASSWORD_PATTERN@, password@),
{
    is_accepted(is_match(PASSWORD_PATTERN, password))
}

} // verus!
