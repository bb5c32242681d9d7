//! Characters and strings: the few operations of `std` that the shell needs
//! and whose behaviour is taken on trust, and verified conversions between
//! `str`, `String` and `Vec<char>`.

use vstd::prelude::*;
use vstd::std_specs::iter::IteratorSpec;

verus! {

/// Whether `c`, a character beyond U+007F, is white space in the sense of
/// `char::is_whitespace` (the Unicode property `White_Space`).
pub uninterp spec fn is_wide_whitespace(c: char) -> bool;

/// Whether `c` is white space in the sense of `char::is_whitespace`. Up to
/// U+007F the white space is the space and the characters from U+0009 to
/// U+000D; beyond it the Unicode property `White_Space` decides.
pub open spec fn is_whitespace(c: char) -> bool {
    if c <= '\x7f' {
        c == ' ' || ('\x09' <= c && c <= '\x0d')
    } else {
        is_wide_whitespace(c)
    }
}

/// The lowercase form of `s` as `str::to_lowercase` computes it.
pub uninterp spec fn lowercase(s: Seq<char>) -> Seq<char>;

/// Calls `char::is_whitespace`. The result is a function of the character
/// alone. Up to U+007F it is true of the space and of U+0009 to U+000D and
/// of nothing else; beyond it the contract gives it the name
/// [`is_wide_whitespace`].
#[verifier::external_body]
pub(crate) fn char_is_whitespace(c: char) -> (b: bool)
    ensures
        b == is_whitespace(c),
        c > '\x7f' ==> b == is_wide_whitespace(c),
{
    c.is_whitespace()
}

/// Calls `str::to_lowercase`. The result is a function of the text alone;
/// the contract gives it the name [`lowercase`].
#[verifier::external_body]
pub(crate) fn to_lowercase(s: &str) -> (r: String)
    ensures
        r@ == lowercase(s@),
{
    s.to_lowercase()
}

/// Calls `String::push`, which appends one character to the end of the
/// string and changes nothing else.
#[verifier::external_body]
pub(crate) fn push_char(s: &mut String, c: char)
    ensures
        final(s)@ == old(s)@.push(c),
{
    s.push(c)
}

/// The characters of `s`, in order.
pub fn to_chars(s: &str) -> (v: Vec<char>)
    ensures
        v@ == s@,
{
    let mut v: Vec<char> = Vec::new();
    for c in it: s.chars()
        invariant
            v@ == it.seq().take(it.index() as int),
            it.seq() == s@,
    {
        v.push(c);
    }
    v
}

/// The text made of the characters `v[from..to]`.
pub fn from_chars(v: &Vec<char>, from: usize, to: usize) -> (s: String)
    requires
        from <= to <= v.len(),
    ensures
        s@ == v@.subrange(from as int, to as int),
{
    let mut s = String::new();
    let mut i: usize = from;
    while i < to
        invariant
            from <= i <= to <= v.len(),
            s@ == v@.subrange(from as int, i as int),
        decreases to - i,
    {
        push_char(&mut s, v[i]);
        i = i + 1;
    }
    s
}

} // verus!
