use vstd::prelude::*;

verus! {

/// `q` occurs in `s` as a contiguous run of characters.
pub open spec fn has_infix(s: Seq<char>, q: Seq<char>) -> bool {
    exists|i: int| 0 <= i <= s.len() - q.len() && #[trigger] s.subrange(i, i + q.len()) == q
}

/// The lowercase mapping of a string, character by character, as std applies it.
pub uninterp spec fn lower_of(s: Seq<char>) -> Seq<char>;

/// Whether a character has the Unicode `Uppercase` property.
pub uninterp spec fn upper_char(c: char) -> bool;

/// Relies on `str::contains` with a `&str` pattern: true exactly when `q` is a
/// substring of `s`.
#[verifier::external_body]
pub(crate) fn str_contains(s: &str, q: &str) -> (r: bool)
    ensures
        r == has_infix(s@, q@),
{
    s.contains(q)
}

/// Relies on `str::to_lowercase`: the result is a function of the characters
/// alone.
#[verifier::external_body]
pub(crate) fn str_lowercase(s: &str) -> (r: String)
    ensures
        r@ == lower_of(s@),
{
    s.to_lowercase()
}

/// Relies on `char::is_uppercase`: the `Uppercase` property of the character.
#[verifier::external_body]
pub(crate) fn char_is_upper(c: char) -> (r: bool)
    ensures
        r == upper_char(c),
{
    c.is_uppercase()
}

/// Relies on `String::push`: appends one character at the end.
#[verifier::external_body]
pub(crate) fn push_char(s: &mut String, c: char)
    ensures
        final(s)@ == old(s)@.push(c),
{
    s.push(c)
}

} // verus!
