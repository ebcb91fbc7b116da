//! Characters and strings: the character classes that the grammars are
//! written in, and the steps between a string and its characters.

use vstd::prelude::*;

verus! {

/// `A` to `Z`.
#[verifier::allow_in_spec]
pub fn is_upper(c: char) -> bool
    returns
        'A' <= c && c <= 'Z',
{
    'A' <= c && c <= 'Z'
}

/// `a` to `z`.
#[verifier::allow_in_spec]
pub fn is_lower(c: char) -> bool
    returns
        'a' <= c && c <= 'z',
{
    'a' <= c && c <= 'z'
}

/// An ASCII letter of either case.
#[verifier::allow_in_spec]
pub fn is_letter(c: char) -> bool
    returns
        is_upper(c) || is_lower(c),
{
    is_upper(c) || is_lower(c)
}

/// `0` to `9`.
#[verifier::allow_in_spec]
pub fn is_digit(c: char) -> bool
    returns
        '0' <= c && c <= '9',
{
    '0' <= c && c <= '9'
}

/// A character that Unicode counts as white space (`White_Space`).
#[verifier::allow_in_spec]
pub fn is_whitespace(c: char) -> bool
    returns
        ('\u{9}' <= c && c <= '\u{d}') || c == ' ' || c == '\u{85}' || c == '\u{a0}' || c
            == '\u{1680}' || ('\u{2000}' <= c && c <= '\u{200a}') || c == '\u{2028}' || c
            == '\u{2029}' || c == '\u{202f}' || c == '\u{205f}' || c == '\u{3000}',
{
    ('\u{9}' <= c && c <= '\u{d}') || c == ' ' || c == '\u{85}' || c == '\u{a0}' || c
        == '\u{1680}' || ('\u{2000}' <= c && c <= '\u{200a}') || c == '\u{2028}' || c
        == '\u{2029}' || c == '\u{202f}' || c == '\u{205f}' || c == '\u{3000}'
}

/// The lower-case form of an ASCII letter; any other character is itself.
pub open spec fn lower_of(c: char) -> char {
    if is_upper(c) {
        ((c as u8) + 32) as char
    } else {
        c
    }
}

/// The upper-case form of an ASCII letter; any other character is itself.
pub open spec fn upper_of(c: char) -> char {
    if is_lower(c) {
        ((c as u8) - 32) as char
    } else {
        c
    }
}

/// `s` with every ASCII letter in lower case.
pub open spec fn ascii_lowercase(s: Seq<char>) -> Seq<char> {
    Seq::new(s.len(), |i: int| lower_of(s[i]))
}

/// `s` with every ASCII letter in upper case.
pub open spec fn ascii_uppercase(s: Seq<char>) -> Seq<char> {
    Seq::new(s.len(), |i: int| upper_of(s[i]))
}

/// Whether no character of `s` is an upper-case ASCII letter.
pub open spec fn has_no_upper(s: Seq<char>) -> bool {
    forall|i: int| 0 <= i < s.len() ==> !is_upper(#[trigger] s[i])
}

/// `String::push`, which appends one character. The contract claims that
/// the text afterwards is the text before with `c` behind it.
#[verifier::external_body]
pub(crate) fn push_char(text: &mut String, c: char)
    ensures
        final(text)@ == old(text)@.push(c),
{
    text.push(c)
}

/// The characters of `s`, in order.
pub(crate) fn chars_of(s: &str) -> (chars: Vec<char>)
    ensures
        chars@ == s@,
{
    let mut chars: Vec<char> = Vec::new();
    for c in it: s.chars()
        invariant
            it.seq() == s@,
            chars@ == s@.take(it.index() as int),
    {
        chars.push(c);
    }
    chars
}

/// The lower-case form of an ASCII letter; any other character is itself.
fn to_lower(c: char) -> (lowered: char)
    ensures
        lowered == lower_of(c),
{
    if is_upper(c) {
        ((c as u8) + 32u8) as char
    } else {
        c
    }
}

/// Copies `s` with every ASCII letter in lower case.
pub(crate) fn to_ascii_lowercase(s: &str) -> (lowered: String)
    ensures
        lowered@ == ascii_lowercase(s@),
{
    let mut lowered = String::new();
    for c in it: s.chars()
        invariant
            it.seq() == s@,
            lowered@ == ascii_lowercase(s@.take(it.index() as int)),
    {
        push_char(&mut lowered, to_lower(c));
    }
    lowered
}

/// The character of the decimal digit `d`.
pub open spec fn digit_char(d: nat) -> char {
    ('0' as u8 + d) as char
}

/// The decimal numeral of `n`, without leading zeros.
pub open spec fn decimal(n: nat) -> Seq<char>
    decreases n,
{
    if n < 10 {
        seq![digit_char(n)]
    } else {
        decimal(n / 10).push(digit_char(n % 10))
    }
}

/// The character of the decimal digit `d`.
pub(crate) fn to_digit_char(d: u8) -> (c: char)
    requires
        d <= 9,
    ensures
        c == digit_char(d as nat),
        is_digit(c),
{
    (48u8 + d) as char
}

} // verus!
