//! Questions about a whole token, answered character by character: does
//! every character pass a test, and which characters pass it.

use crate::text::{char_range, valid_bounds};
use vstd::prelude::*;
use vstd::std_specs::iter::IteratorSpec;

verus! {

/// Whether a character has the Unicode property Alphabetic.
pub uninterp spec fn is_alphabetic_char(c: char) -> bool;

/// Whether a character belongs to one of the Unicode general categories for
/// numbers.
pub uninterp spec fn is_numeric_char(c: char) -> bool;

/// `char::is_alphabetic` reports whether the character has the Unicode
/// property Alphabetic. The answer depends on the character alone.
pub assume_specification[ char::is_alphabetic ](c: char) -> (b: bool)
    ensures
        b == is_alphabetic_char(c),
;

/// `char::is_numeric` reports whether the character belongs to one of the
/// Unicode general categories for numbers. The answer depends on the
/// character alone.
pub assume_specification[ char::is_numeric ](c: char) -> (b: bool)
    ensures
        b == is_numeric_char(c),
;

/// `char::is_alphanumeric` holds of exactly the characters of which
/// `char::is_alphabetic` or `char::is_numeric` holds.
pub assume_specification[ char::is_alphanumeric ](c: char) -> (b: bool)
    ensures
        b == (is_alphabetic_char(c) || is_numeric_char(c)),
;

/// A test that a single character passes or fails.
#[derive(Clone, Copy, Debug, PartialEq, Eq, Structural)]
pub enum CharTest {
    /// The character is alphabetic.
    Alphabetic,
    /// The character is alphabetic or numeric.
    Alphanumeric,
    /// The character is numeric.
    Numeric,
    /// The character lies in the ASCII range.
    Ascii,
}

impl CharTest {
    /// Whether `c` passes this test.
    pub open spec fn passes(self, c: char) -> bool {
        match self {
            CharTest::Alphabetic => is_alphabetic_char(c),
            CharTest::Alphanumeric => is_alphabetic_char(c) || is_numeric_char(c),
            CharTest::Numeric => is_numeric_char(c),
            CharTest::Ascii => c <= '\u{7f}',
        }
    }

    /// Whether every character of `chars` passes this test. No character
    /// fails it in the empty sequence.
    pub open spec fn holds_of_all(self, chars: Seq<char>) -> bool {
        forall|i: int| 0 <= i < chars.len() ==> self.passes(#[trigger] chars[i])
    }

    /// Applies this test to one character.
    pub fn check(self, c: char) -> (pass: bool)
        ensures
            pass == self.passes(c),
    {
        match self {
            CharTest::Alphabetic => c.is_alphabetic(),
            CharTest::Alphanumeric => c.is_alphanumeric(),
            CharTest::Numeric => c.is_numeric(),
            CharTest::Ascii => c <= '\u{7f}',
        }
    }
}

/// Whether every flag of `flags` is set. The empty sequence has no flag
/// that is not.
pub open spec fn all_set(flags: Seq<bool>) -> bool {
    forall|i: int| 0 <= i < flags.len() ==> #[trigger] flags[i]
}

/// The characters of `chars` whose position is marked in `keep`, in the
/// order of `chars`. A position that `keep` does not reach counts as
/// unmarked.
pub open spec fn kept(chars: Seq<char>, keep: Seq<bool>) -> Seq<char>
    decreases chars.len(),
{
    if chars.len() == 0 {
        Seq::empty()
    } else {
        let before = kept(chars.drop_last(), keep);
        if chars.len() <= keep.len() && keep[chars.len() - 1] {
            before.push(chars.last())
        } else {
            before
        }
    }
}

/// The characters of a token that are numeric, in the order of the token.
pub open spec fn numeric_part(chars: Seq<char>) -> Seq<char> {
    chars.filter(|c: char| is_numeric_char(c))
}

/// Keeping the characters whose marks are the answers of a predicate is
/// filtering by that predicate.
pub proof fn lemma_kept_is_filter(chars: Seq<char>, keep: Seq<bool>, pred: spec_fn(char) -> bool)
    requires
        chars.len() <= keep.len(),
        forall|i: int| 0 <= i < chars.len() ==> keep[i] == pred(#[trigger] chars[i]),
    ensures
        kept(chars, keep) == chars.filter(pred),
    decreases chars.len(),
{
    reveal(Seq::filter);
    if chars.len() > 0 {
        let front = chars.drop_last();
        lemma_kept_is_filter(front, keep, pred);
    }
}

/// Whether every flag is set.
pub fn every(flags: &[bool]) -> (all: bool)
    ensures
        all == all_set(flags@),
{
    let mut i: usize = 0;
    while i < flags.len()
        invariant
            i <= flags@.len(),
            forall|j: int| 0 <= j < i ==> #[trigger] flags@[j],
        decreases flags@.len() - i,
    {
        if !flags[i] {
            return false;
        }
        i += 1;
    }
    true
}

/// The characters of `text` whose position is marked in `keep`.
pub fn select(text: &str, keep: &[bool]) -> (chosen: String)
    ensures
        chosen@ == kept(text@, keep@),
{
    broadcast use vstd::string::group_string_axioms;

    let mut chosen = String::new();
    let mut pos: usize = 0;
    for ch in walk: text.chars()
        invariant
            walk.seq() == text@,
            pos <= keep@.len(),
            pos == walk.index() || (pos == keep@.len() && pos <= walk.index()),
            chosen@ == kept(text@.take(walk.index()), keep@),
    {
        assert(text@.take(walk.index() + 1).drop_last() == text@.take(walk.index()));
        if pos < keep.len() {
            if keep[pos] {
                chosen.push(ch);
            }
            pos += 1;
        }
    }
    assert(text@.take(text@.len() as int) == text@);
    chosen
}

/// The answer of `test` for every character of `token`, in order.
pub fn marks(test: CharTest, token: &str) -> (flags: Vec<bool>)
    ensures
        flags@.len() == token@.len(),
        forall|i: int|
            #![trigger flags@[i]]
            #![trigger token@[i]]
            0 <= i < token@.len() ==> flags@[i] == test.passes(token@[i]),
{
    broadcast use vstd::string::group_string_axioms;

    let mut flags: Vec<bool> = Vec::new();
    for ch in walk: token.chars()
        invariant
            walk.seq() == token@,
            flags@.len() == walk.index(),
            forall|i: int| 0 <= i < walk.index() ==> flags@[i] == test.passes(#[trigger] token@[i]),
    {
        flags.push(test.check(ch));
    }
    flags
}

/// Whether every character of `token` passes `test`.
pub fn all_pass(test: CharTest, token: &str) -> (all: bool)
    ensures
        all == test.holds_of_all(token@),
{
    let flags = marks(test, token);
    every(flags.as_slice())
}

/// The numeric characters of `token`, in the order of the token, as a new
/// text.
pub fn numeric_chars(token: &str) -> (digits: String)
    ensures
        digits@ == numeric_part(token@),
{
    let flags = marks(CharTest::Numeric, token);
    proof {
        lemma_kept_is_filter(token@, flags@, |c: char| is_numeric_char(c));
    }
    select(token, flags.as_slice())
}

/// What is known of a token after every question has been asked of it.
pub struct TokenReport {
    /// Every character is alphabetic.
    pub alphabetic: bool,
    /// Every character is alphabetic or numeric.
    pub alphanumeric: bool,
    /// Every character is numeric.
    pub numeric: bool,
    /// Every character lies in the ASCII range.
    pub ascii: bool,
    /// The characters between the two bounds, or `None` where the bounds
    /// are not valid for the token.
    pub slice: Option<String>,
    /// The numeric characters of the token.
    pub digits: String,
}

/// Asks every question of `token`: the four whole-token tests, the
/// characters at the positions `min .. max`, and its numeric characters.
pub fn string_adapters(token: &str, min: usize, max: usize) -> (report: TokenReport)
    ensures
        report.alphabetic == CharTest::Alphabetic.holds_of_all(token@),
        report.alphanumeric == CharTest::Alphanumeric.holds_of_all(token@),
        report.numeric == CharTest::Numeric.holds_of_all(token@),
        report.ascii == CharTest::Ascii.holds_of_all(token@),
        report.slice is Some <==> valid_bounds(token@.len(), min as int, max as int),
        report.slice matches Some(chars) ==> chars@ == token@.subrange(min as int, max as int),
        report.digits@ == numeric_part(token@),
{
    TokenReport {
        alphabetic: all_pass(CharTest::Alphabetic, token),
        alphanumeric: all_pass(CharTest::Alphanumeric, token),
        numeric: all_pass(CharTest::Numeric, token),
        ascii: all_pass(CharTest::Ascii, token),
        slice: char_range(token, min, max),
        digits: numeric_chars(token),
    }
}

} // verus!
