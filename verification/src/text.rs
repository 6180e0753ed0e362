//! Small operations on strings and sequences that the rest of the crate
//! states its contracts over.

use vstd::prelude::*;
use vstd::utf8::*;

verus! {

/// `suffix` is what `text` ends with.
pub open spec fn is_suffix(suffix: Seq<char>, text: Seq<char>) -> bool {
    suffix.len() <= text.len() && text.subrange(text.len() - suffix.len(), text.len() as int)
        == suffix
}

/// What strings hold, string by string.
pub open spec fn texts(names: Seq<String>) -> Seq<Seq<char>> {
    Seq::new(names.len(), |i: int| names[i]@)
}

/// A sequence put in front of another that may be missing.
pub open spec fn after<T>(front: Seq<T>, back: Option<Seq<T>>) -> Option<Seq<T>> {
    match back {
        Some(rest) => Some(front + rest),
        None => None,
    }
}

/// Two byte slices hold the same bytes.
pub fn bytes_eq(a: &[u8], b: &[u8]) -> (same: bool)
    ensures
        same == (a@ == b@),
{
    if a.len() != b.len() {
        return false;
    }
    let mut i: usize = 0;
    while i < a.len()
        invariant
            a@.len() == b@.len(),
            i <= a@.len(),
            a@.take(i as int) == b@.take(i as int),
        decreases a@.len() - i,
    {
        if a[i] != b[i] {
            return false;
        }
        i += 1;
    }
    assert(a@ =~= a@.take(i as int));
    assert(b@ =~= b@.take(i as int));
    true
}

/// Two strings hold the same characters.
pub fn str_eq(a: &str, b: &str) -> (same: bool)
    ensures
        same == (a@ == b@),
{
    proof {
        encode_utf8_decode_utf8(a@);
        encode_utf8_decode_utf8(b@);
    }
    bytes_eq(a.as_bytes(), b.as_bytes())
}

/// `str::ends_with` with a string as the pattern: whether the characters of
/// `suffix` are the last characters of `text`, as the documentation of std
/// says.
#[verifier::external_body]
pub(crate) fn ends_with(text: &str, suffix: &str) -> (hit: bool)
    ensures
        hit == is_suffix(suffix@, text@),
{
    text.ends_with(suffix)
}

/// `String::from_utf8`, an error turned into nothing: the text that `bytes`
/// encode, or nothing where they are not UTF-8, as the documentation of std
/// says.
#[verifier::external_body]
pub(crate) fn utf8_text(bytes: Vec<u8>) -> (text: Option<String>)
    ensures
        text is Some <==> valid_utf8(bytes@),
        text matches Some(s) ==> s@ == decode_utf8(bytes@),
{
    String::from_utf8(bytes).ok()
}

} // verus!
