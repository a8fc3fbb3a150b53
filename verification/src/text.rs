//! Walking text by character: text is a sequence of characters of varying
//! width, so every position here counts characters, never storage units.

use crate::listing::spaced;
use crate::printable::Printable;
use vstd::prelude::*;
use vstd::std_specs::iter::IteratorSpec;
use vstd::string::StringSliceAdditionalSpecFns;
use vstd::utf8::{encode_scalar, encode_utf8, is_ascii_chars};

verus! {

/// Spaced text holds two characters for every element it was made from.
pub proof fn lemma_spaced_chars_len(chars: Seq<char>)
    ensures
        spaced(chars).len() == 2 * chars.len(),
    decreases chars.len(),
{
    if chars.len() > 0 {
        lemma_spaced_chars_len(chars.drop_last());
    }
}

/// In spaced text the characters stand at the even positions, in the order
/// of the text, each with a space after it.
pub proof fn lemma_spaced_chars_index(chars: Seq<char>, i: int)
    requires
        0 <= i < chars.len(),
    ensures
        spaced(chars).len() == 2 * chars.len(),
        spaced(chars)[2 * i] == chars[i],
        spaced(chars)[2 * i + 1] == ' ',
    decreases chars.len(),
{
    lemma_spaced_chars_len(chars);
    lemma_spaced_chars_len(chars.drop_last());
    if i < chars.len() - 1 {
        lemma_spaced_chars_index(chars.drop_last(), i);
    }
}

/// The characters of `text`, a space after each, drawn from the character
/// iterator by hand until it reports that nothing is left.
pub fn string_iteration(text: &str) -> (result: String)
    ensures
        result@ == spaced(text@),
{
    broadcast use vstd::string::group_string_axioms;

    let mut result = String::new();
    let mut iter = text.chars();
    let ghost mut seen: int = 0;
    loop
        invariant
            0 <= seen <= text@.len(),
            iter.remaining() == text@.skip(seen),
            result@ == spaced(text@.take(seen)),
        ensures
            result@ == spaced(text@),
        decreases text@.len() - seen,
    {
        let opt = iter.next();
        if opt.is_none() {
            assert(text@.take(seen) == text@);
            break ;
        }
        let ch = opt.unwrap();
        proof {
            assert(text@.take(seen + 1).drop_last() == text@.take(seen));
            seen = seen + 1;
        }
        result.push(ch);
        result.push(' ');
    }
    result
}

/// Every character takes at least one storage unit, and a character outside
/// the ASCII range takes more than one.
pub proof fn lemma_encoded_char_width(c: char)
    ensures
        '\0' <= c,
        1 <= encode_scalar(c as u32).len() <= 4,
        encode_scalar(c as u32).len() == 1 <==> c <= '\u{7f}',
{
}

/// The character count of a text never exceeds its storage-unit count, and
/// the two are equal exactly when every character is ASCII: one multi-unit
/// character is enough to make the character count the smaller one.
pub proof fn lemma_char_count_and_unit_count(chars: Seq<char>)
    ensures
        chars.len() <= encode_utf8(chars).len(),
        chars.len() == encode_utf8(chars).len() <==> is_ascii_chars(chars),
    decreases chars.len(),
{
    if chars.len() > 0 {
        let rest = chars.drop_first();
        lemma_char_count_and_unit_count(rest);
        lemma_encoded_char_width(chars[0]);
        if chars[0] <= '\u{7f}' && is_ascii_chars(rest) {
            assert forall|i: int| 0 <= i < chars.len() implies '\0' <= #[trigger] chars[i]
                <= '\u{7f}' by {
                if i > 0 {
                    assert(chars[i] == rest[i - 1]);
                }
            }
        }
    }
}

/// Counts the characters of `text` by walking it character by character.
///
/// The result is the number of characters, which for text with multi-unit
/// characters is smaller than the number of storage units.
pub fn count_chars(text: &str) -> (count: usize)
    ensures
        count == text@.len(),
        count <= text.spec_bytes().len(),
        count == text.spec_bytes().len() <==> is_ascii_chars(text@),
{
    broadcast use vstd::string::group_string_axioms;

    proof {
        lemma_char_count_and_unit_count(text@);
    }
    let units: usize = text.as_bytes().len();
    let mut count: usize = 0;
    for ch in walk: text.chars()
        invariant
            count == walk.index(),
            walk.seq() == text@,
            text@.len() <= units,
    {
        count += 1;
    }
    count
}

/// What a lookup by character position finds: the character at `index`
/// where the text has one, and nothing at any position from the character
/// count on.
pub open spec fn char_at(chars: Seq<char>, index: int) -> Option<char> {
    if 0 <= index < chars.len() {
        Some(chars[index])
    } else {
        None
    }
}

/// Looks up the character at position `index`, counted in characters.
///
/// A position at or past the end is reported as `None`; it is never an
/// error.
pub fn nth_char(text: &str, index: usize) -> (found: Option<char>)
    ensures
        found == char_at(text@, index as int),
        index < text@.len() ==> found == Some(text@[index as int]),
        index >= text@.len() ==> found is None,
{
    broadcast use vstd::string::group_string_axioms;

    let mut iter = text.chars();
    let mut skipped: usize = 0;
    while skipped < index
        invariant
            skipped <= index,
            skipped <= text@.len(),
            iter.remaining() == text@.skip(skipped as int),
        decreases index - skipped,
    {
        let opt = iter.next();
        if opt.is_none() {
            return None;
        }
        skipped += 1;
    }
    iter.next()
}

/// The result of walking a text and looking one character up.
pub struct TextWalk {
    /// The characters of the text, a space after each.
    pub spaced: String,
    /// The character at the position that was asked for, if there is one.
    pub found: Option<char>,
}

/// The characters of `text`, a space after each, produced by a loop over
/// the characters themselves, together with a lookup of position `index`.
pub fn idomatic_string_iteration(text: &str, index: usize) -> (walk: TextWalk)
    ensures
        walk.spaced@ == spaced(text@),
        walk.found == char_at(text@, index as int),
{
    broadcast use vstd::string::group_string_axioms;

    let mut result = String::new();
    for ch in iter: text.chars()
        invariant
            iter.seq() == text@,
            result@ == spaced(text@.take(iter.index())),
    {
        assert(text@.take(iter.index() + 1).drop_last() == text@.take(iter.index()));
        result.push(ch);
        result.push(' ');
    }
    assert(text@.take(text@.len() as int) == text@);
    TextWalk { spaced: result, found: nth_char(text, index) }
}

/// Whether `min` and `max` bound a range of a text of `len` characters:
/// `0 <= min <= max <= len`.
pub open spec fn valid_bounds(len: nat, min: int, max: int) -> bool {
    0 <= min <= max <= len
}

/// The characters of `text` at the positions `min .. max`, counted in
/// characters, with `max` left out.
///
/// Bounds that do not satisfy `min <= max <= length` are reported as `None`;
/// they are never an error.
pub fn char_range(text: &str, min: usize, max: usize) -> (slice: Option<String>)
    ensures
        slice is Some <==> valid_bounds(text@.len(), min as int, max as int),
        slice matches Some(chars) ==> chars@ == text@.subrange(min as int, max as int),
{
    broadcast use vstd::string::group_string_axioms;

    let len: usize = count_chars(text);
    if !(min <= max && max <= len) {
        return None;
    }
    let mut chars = String::new();
    let mut pos: usize = 0;
    for ch in walk: text.chars()
        invariant
            walk.seq() == text@,
            pos == walk.index(),
            min <= max <= len == text@.len(),
            chars@ == text@.subrange(min as int, if pos < min {
                min as int
            } else if pos < max {
                pos as int
            } else {
                max as int
            }),
    {
        if min <= pos && pos < max {
            assert(text@.subrange(min as int, pos + 1) == text@.subrange(
                min as int,
                pos as int,
            ).push(ch));
            chars.push(ch);
        }
        pos += 1;
    }
    Some(chars)
}

} // verus!
