use vstd::prelude::*;

verus! {

/// `text` in upper case, as `str::to_uppercase` of the standard library
/// writes it.
pub uninterp spec fn upper_case(text: Seq<char>) -> Seq<char>;

/// The text of an optional string.
pub open spec fn text_view(text: Option<String>) -> Option<Seq<char>> {
    match text {
        Some(t) => Some(t@),
        None => None,
    }
}

/// The number of bytes `text` takes in UTF-8.
pub open spec fn byte_len(text: Seq<char>) -> usize {
    vstd::utf8::encode_utf8(text).len() as usize
}

/// `str::to_uppercase` of the standard library.
#[verifier::external_body]
pub(crate) fn to_upper_case(text: &str) -> (upper: String)
    ensures
        upper@ == upper_case(text@),
{
    text.to_uppercase()
}

} // verus!
