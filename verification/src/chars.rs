//! Characters, their classification, and conversion between strings and
//! character buffers.

use vstd::prelude::*;

verus! {

/// Whether `c` has the Unicode `White_Space` property, as
/// `char::is_whitespace` reports it.
pub uninterp spec fn char_is_whitespace(c: char) -> bool;

/// Whether `c` is alphabetic or numeric in the Unicode sense, as
/// `char::is_alphanumeric` reports it.
pub uninterp spec fn char_is_alphanumeric(c: char) -> bool;

/// `char::is_whitespace` is a function of the character alone; its result is
/// given the name [`char_is_whitespace`] and nothing more is claimed of it.
pub assume_specification[ char::is_whitespace ](c: char) -> (b: bool)
    ensures
        b == char_is_whitespace(c),
;

/// `char::is_alphanumeric` is a function of the character alone; its result
/// is given the name [`char_is_alphanumeric`] and nothing more is claimed of
/// it.
pub assume_specification[ char::is_alphanumeric ](c: char) -> (b: bool)
    ensures
        b == char_is_alphanumeric(c),
;

/// `String::push` appends one character to the end of the string.
pub assume_specification[ String::push ](s: &mut String, c: char)
    ensures
        final(s)@ == old(s)@.push(c),
;

/// What the scanner needs to know of a character.
#[derive(Clone, Copy, Debug, PartialEq, Eq, Structural)]
pub enum CharKind {
    /// Whitespace; separates tokens.
    Space,
    /// Alphanumeric and not whitespace; may start a language tag.
    Alnum,
    /// Anything else.
    Other,
}

/// The kind of a character with the given two properties. Whitespace wins.
pub open spec fn kind_from(whitespace: bool, alphanumeric: bool) -> CharKind {
    if whitespace {
        CharKind::Space
    } else if alphanumeric {
        CharKind::Alnum
    } else {
        CharKind::Other
    }
}

/// The kind of `c`.
pub open spec fn kind_of(c: char) -> CharKind {
    kind_from(char_is_whitespace(c), char_is_alphanumeric(c))
}

/// The kinds of all characters of `text`, position by position.
pub open spec fn kinds_of(text: Seq<char>) -> Seq<CharKind> {
    Seq::new(text.len(), |i: int| kind_of(text[i]))
}

/// Combines the two properties of a character into its kind.
pub fn kind_from_flags(whitespace: bool, alphanumeric: bool) -> (k: CharKind)
    ensures
        k == kind_from(whitespace, alphanumeric),
{
    if whitespace {
        CharKind::Space
    } else if alphanumeric {
        CharKind::Alnum
    } else {
        CharKind::Other
    }
}

/// Classifies one character.
pub fn classify(c: char) -> (k: CharKind)
    ensures
        k == kind_of(c),
{
    kind_from_flags(c.is_whitespace(), c.is_alphanumeric())
}

/// Classifies every character of `text`.
pub fn classify_all(text: &[char]) -> (kinds: Vec<CharKind>)
    ensures
        kinds@ == kinds_of(text@),
{
    let mut kinds: Vec<CharKind> = Vec::new();
    let mut i: usize = 0;
    while i < text.len()
        invariant
            i <= text.len(),
            kinds.len() == i,
            forall|j: int| 0 <= j < i ==> kinds[j] == kind_of(#[trigger] text[j]),
        decreases text.len() - i,
    {
        kinds.push(classify(text[i]));
        i += 1;
    }
    kinds
}

/// The characters of `s`, in order.
pub fn chars_of(s: &str) -> (text: Vec<char>)
    ensures
        text@ == s@,
{
    let mut text: Vec<char> = Vec::new();
    for c in it: s.chars()
        invariant
            it.seq() == s@,
            text@ == it.seq().take(it.index()),
    {
        text.push(c);
    }
    text
}

/// The characters of `text` from `from` up to `to`, as a string.
pub fn string_of(text: &[char], from: usize, to: usize) -> (s: String)
    requires
        from <= to <= text.len(),
    ensures
        s@ == text@.subrange(from as int, to as int),
{
    let mut s = String::new();
    let mut i: usize = from;
    while i < to
        invariant
            from <= i <= to <= text.len(),
            s@ == text@.subrange(from as int, i as int),
        decreases to - i,
    {
        s.push(text[i]);
        i += 1;
    }
    s
}

} // verus!
