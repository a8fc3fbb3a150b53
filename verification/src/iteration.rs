//! Three ways to walk a fixed-size byte sequence, side by side, together
//! with its list forms.

use crate::listing::{clamp, enclosed, joined, put_coll_to_string, spaced};
use crate::printable::Printable;
use vstd::prelude::*;
use vstd::std_specs::iter::{IteratorSpec, VerusForLoopWrapper};

verus! {

/// What walking a byte sequence in every supported style produces.
pub struct ByteArrayReport {
    /// The number of elements.
    pub length: usize,
    /// The elements, a space after each, drawn from an iterator by hand
    /// until it reports that nothing is left.
    pub by_next: String,
    /// The same text, produced by indexing every position of the range.
    pub by_index: String,
    /// The same text, produced by a loop over the elements themselves.
    pub by_item: String,
    /// The elements as a separated list without brackets.
    pub listed: String,
    /// The separated list between curly braces.
    pub braced: String,
}

/// Appends one element and the space that follows it.
fn push_spaced(out: &mut String, item: &u8)
    ensures
        final(out)@ == old(out)@ + item.text().push(' '),
{
    item.print_to(out);
    out.push(' ');
}

/// Walks `ba` in three styles and renders it as a list.
///
/// All three walks visit every element exactly once and in order, so they
/// produce the same text.
pub fn iterate_byte_array<const N: usize>(ba: &[u8; N]) -> (report: ByteArrayReport)
    ensures
        report.length == N,
        report.by_next@ == spaced(ba@),
        report.by_index@ == spaced(ba@),
        report.by_item@ == spaced(ba@),
        report.listed@ == joined(ba@),
        report.braced@ == enclosed('{', joined(ba@), '}'),
{
    let mut by_next = String::new();
    // The wrapper pairs the iterator with the record of what it has handed
    // out, which is what a `for` loop keeps behind the scenes.
    let mut iter = VerusForLoopWrapper::new(ba.iter(), Ghost(None));
    loop
        invariant
            iter.wf(),
            iter.seq() == ba@.as_ref(),
            by_next@ == spaced(ba@.take(iter.index())),
        ensures
            by_next@ == spaced(ba@),
        decreases ba@.len() - iter.index(),
    {
        let opt = iter.next();
        match opt {
            None => {
                assert(ba@.take(iter.index()) == ba@);
                break ;
            },
            Some(item) => {
                assert(ba@.take(iter.index()).drop_last() == ba@.take(iter.index() - 1));
                push_spaced(&mut by_next, item);
            },
        }
    }

    let mut by_index = String::new();
    for it in 0..N
        invariant
            by_index@ == spaced(ba@.take(it as int)),
    {
        assert(ba@.take(it + 1).drop_last() == ba@.take(it as int));
        push_spaced(&mut by_index, &ba[it]);
    }
    assert(ba@.take(N as int) == ba@);

    let mut by_item = String::new();
    for item in walk: ba.iter()
        invariant
            by_item@ == spaced(ba@.take(walk.index())),
    {
        assert(ba@.take(walk.index() + 1).drop_last() == ba@.take(walk.index()));
        push_spaced(&mut by_item, item);
    }

    let listed = put_coll_to_string(ba.as_slice());
    proof {
        reveal_strlit("{}");
    }
    let braced = clamp(listed.as_str(), "{}");
    ByteArrayReport { length: N, by_next, by_index, by_item, listed, braced }
}

} // verus!
