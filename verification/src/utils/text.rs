//! Text helpers: UTF-8 decoding and building strings one character at a time.
use vstd::prelude::*;
use vstd::utf8::{decode_utf8, is_ascii_chars, valid_utf8};

verus! {

/// `String::from_utf8`: the text whose UTF-8 encoding is `bytes`, or `None`
/// when `bytes` is not valid UTF-8.
#[verifier::external_body]
pub(crate) fn string_from_utf8(bytes: Vec<u8>) -> (r: Option<String>)
    ensures
        r is Some <==> valid_utf8(bytes@),
        r matches Some(s) ==> s@ == decode_utf8(bytes@),
{
    String::from_utf8(bytes).ok()
}

/// `String::push`: appends one character.
#[verifier::external_body]
pub(crate) fn string_push(s: &mut String, c: char)
    ensures
        final(s)@ == old(s)@.push(c),
{
    s.push(c)
}

/// The lowercase equivalent of a text, as `str::to_lowercase` gives it
/// (by the Unicode lowercase mappings).
pub uninterp spec fn spec_to_lowercase(s: Seq<char>) -> Seq<char>;

/// `c` lowercased by the ASCII rule: `A` to `Z` become `a` to `z`, every
/// other character stays.
pub open spec fn spec_ascii_lower_char(c: char) -> char {
    if 'A' <= c <= 'Z' {
        ((c as u32) + 0x20) as char
    } else {
        c
    }
}

/// `str::to_lowercase`: the lowercase equivalent of `s`. Its result is named
/// by `spec_to_lowercase`; of ASCII text the contract also states what the
/// documentation shows (`"HELLO"` becomes `"hello"`, and a character without
/// a lowercase mapping stays): capitals become small letters, the rest
/// stays. Nothing else about non-ASCII text is stated.
#[verifier::external_body]
pub(crate) fn str_to_lowercase(s: &str) -> (r: String)
    ensures
        r@ == spec_to_lowercase(s@),
        is_ascii_chars(s@) ==> r@ == s@.map_values(|c: char| spec_ascii_lower_char(c)),
{
    s.to_lowercase()
}

/// The characters of `s`, in order.
pub fn str_chars(s: &str) -> (v: Vec<char>)
    ensures
        v@ == s@,
{
    let mut v: Vec<char> = Vec::new();
    for c in it: s.chars()
        invariant
            v@ == it.seq().take(it.index() as int),
    {
        v.push(c);
    }
    v
}

} // verus!
