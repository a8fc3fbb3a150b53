//! Decimal text for integers, and the `Printable` capability that list
//! rendering is generic over.

use vstd::prelude::*;

verus! {

/// `String::push` appends exactly one character to the end of the string and
/// leaves everything before it unchanged.
pub assume_specification[ String::push ](s: &mut String, c: char)
    ensures
        final(s)@ == old(s)@.push(c),
;

/// The character that writes the decimal digit `d`: the digits follow one
/// another from `'0'`, which has the code 48.
pub open spec fn digit_char(d: nat) -> char
    recommends
        d < 10,
{
    (48 + d) as u8 as char
}

/// The ten digit characters, each by its value.
pub proof fn lemma_digit_chars()
    ensures
        digit_char(0) == '0',
        digit_char(1) == '1',
        digit_char(2) == '2',
        digit_char(3) == '3',
        digit_char(4) == '4',
        digit_char(5) == '5',
        digit_char(6) == '6',
        digit_char(7) == '7',
        digit_char(8) == '8',
        digit_char(9) == '9',
{
}

/// The decimal text of a natural number, most significant digit first, with
/// no leading zeros (zero itself is written `0`).
pub open spec fn decimal(n: nat) -> Seq<char>
    decreases n,
{
    if n < 10 {
        seq![digit_char(n)]
    } else {
        decimal(n / 10).push(digit_char(n % 10))
    }
}

/// The decimal text of an integer: a minus sign before the digits of a
/// negative number, the bare digits otherwise.
pub open spec fn signed_decimal(n: int) -> Seq<char> {
    if n < 0 {
        seq!['-'] + decimal((-n) as nat)
    } else {
        decimal(n as nat)
    }
}

/// Appends the decimal text of `n` to `out`.
pub fn push_decimal(out: &mut String, n: u64)
    ensures
        final(out)@ == old(out)@ + decimal(n as nat),
    decreases n,
{
    if n >= 10 {
        push_decimal(out, n / 10);
    }
    let d: u8 = (n % 10) as u8;
    out.push((48u8 + d) as char);
}

/// A value that has a text form and can write it.
///
/// List rendering asks nothing else of its elements.
pub trait Printable {
    /// The text form of the value.
    spec fn text(&self) -> Seq<char>;

    /// Appends the text form of the value to `out`.
    fn print_to(&self, out: &mut String)
        ensures
            final(out)@ == old(out)@ + self.text(),
    ;
}

impl Printable for u8 {
    open spec fn text(&self) -> Seq<char> {
        decimal(*self as nat)
    }

    fn print_to(&self, out: &mut String) {
        push_decimal(out, *self as u64);
    }
}

impl Printable for i32 {
    open spec fn text(&self) -> Seq<char> {
        signed_decimal(*self as int)
    }

    fn print_to(&self, out: &mut String) {
        let wide: i64 = *self as i64;
        if wide < 0 {
            out.push('-');
            push_decimal(out, (-wide) as u64);
        } else {
            push_decimal(out, wide as u64);
        }
    }
}

impl Printable for char {
    open spec fn text(&self) -> Seq<char> {
        seq![*self]
    }

    fn print_to(&self, out: &mut String) {
        out.push(*self);
    }
}

/// The text form of one value, as a fresh string.
pub fn render<T: Printable>(item: &T) -> (out: String)
    ensures
        out@ == item.text(),
{
    let mut out = String::new();
    item.print_to(&mut out);
    out
}

} // verus!
