use vstd::prelude::*;

verus! {

/// Holds for the digits and the letters of ASCII.
pub open spec fn is_alphanumeric(c: char) -> bool {
    ||| '0' <= c <= '9'
    ||| 'a' <= c <= 'z'
    ||| 'A' <= c <= 'Z'
}

/// Holds for the lower-case hexadecimal digits.
pub open spec fn is_lower_hex(c: char) -> bool {
    ||| '0' <= c <= '9'
    ||| 'a' <= c <= 'f'
}

/// Holds for the places of a session identifier where a hyphen stands.
pub open spec fn is_hyphen_place(i: int) -> bool {
    i == 8 || i == 13 || i == 18 || i == 23
}

/// Holds for a code of `len` digits and ASCII letters.
pub open spec fn is_code(text: Seq<char>, len: nat) -> bool {
    &&& text.len() == len
    &&& forall|i: int| 0 <= i < text.len() ==> is_alphanumeric(#[trigger] text[i])
}

/// Holds for a session identifier: 36 characters, a hyphen at each of the
/// four places that part the five groups, and a lower-case hexadecimal
/// digit at every other place.
pub open spec fn is_session_id(text: Seq<char>) -> bool {
    &&& text.len() == 36
    &&& forall|i: int|
        0 <= i < text.len() ==> if is_hyphen_place(i) {
            #[trigger] text[i] == '-'
        } else {
            is_lower_hex(text[i])
        }
}

/// Draws `len` characters from `rand::distributions::Alphanumeric` with the
/// thread's generator. Which characters come is left open; each is one of
/// the 62 digits and ASCII letters that the distribution picks from.
#[verifier::external_body]
pub(crate) fn random_code(len: usize) -> (code: String)
    ensures
        is_code(code@, len as nat),
{
    rand::Rng::sample_iter(rand::thread_rng(), &rand::distributions::Alphanumeric)
        .take(len)
        .map(char::from)
        .collect()
}

/// Makes a random identifier with `uuid::Uuid::new_v4` and writes it out
/// with `to_string`, which gives the hyphenated lower-case form. Which
/// identifier comes is left open.
#[verifier::external_body]
pub(crate) fn random_session_id() -> (id: String)
    ensures
        is_session_id(id@),
{
    uuid::Uuid::new_v4().to_string()
}

} // verus!
