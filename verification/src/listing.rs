//! Rendering a finite sequence as delimited text: every element once, in
//! order, with a separator between neighbours and none after the last.

use crate::printable::Printable;
use vstd::prelude::*;
use vstd::std_specs::iter::IteratorSpec;
use vstd::string::StringExecFns;

verus! {

/// The separator written between two neighbouring elements of a list.
pub open spec fn separator() -> Seq<char> {
    seq![',', ' ']
}

/// The elements of `items` in order, each one followed by a single space.
pub open spec fn spaced<T: Printable>(items: Seq<T>) -> Seq<char>
    decreases items.len(),
{
    if items.len() == 0 {
        Seq::empty()
    } else {
        spaced(items.drop_last()) + items.last().text().push(' ')
    }
}

/// The elements of `items` in order with a separator between neighbours:
/// nothing before the first element and nothing after the last.
pub open spec fn joined<T: Printable>(items: Seq<T>) -> Seq<char>
    decreases items.len(),
{
    if items.len() == 0 {
        Seq::empty()
    } else if items.len() == 1 {
        items[0].text()
    } else {
        joined(items.drop_last()) + separator() + items.last().text()
    }
}

/// `body` between the two characters `left` and `right`.
pub open spec fn enclosed(left: char, body: Seq<char>, right: char) -> Seq<char> {
    seq![left] + body + seq![right]
}

/// The list form of `items`: the joined elements between square brackets.
pub open spec fn bracketed<T: Printable>(items: Seq<T>) -> Seq<char> {
    enclosed('[', joined(items), ']')
}

/// Appends the two characters that separate neighbouring elements.
fn push_separator(out: &mut String)
    ensures
        final(out)@ == old(out)@ + separator(),
{
    out.push(',');
    out.push(' ');
}

/// Writes the elements of `items` as a separated list, without brackets.
///
/// The separator goes before every element but the first, so the text never
/// ends in one. An empty sequence gives the empty text.
pub fn put_coll_to_string<T: Printable>(items: &[T]) -> (result: String)
    ensures
        result@ == joined(items@),
{
    let mut result = String::new();
    let mut i: usize = 0;
    while i < items.len()
        invariant
            i <= items@.len(),
            result@ == joined(items@.take(i as int)),
        decreases items@.len() - i,
    {
        proof {
            let upto = items@.take(i + 1);
            assert(upto.drop_last() == items@.take(i as int));
        }
        if i > 0 {
            push_separator(&mut result);
        }
        items[i].print_to(&mut result);
        i += 1;
    }
    proof {
        assert(items@.take(items@.len() as int) == items@);
    }
    result
}

/// What `clamp` returns for a body and a pair of bookends.
///
/// Bookends of fewer than two characters leave the body as it is. Otherwise
/// the first bookend character goes before the body and the second after it;
/// any further characters are ignored.
pub open spec fn clamped(body: Seq<char>, bookend: Seq<char>) -> Seq<char> {
    if bookend.len() < 2 {
        body
    } else {
        enclosed(bookend[0], body, bookend[1])
    }
}

/// Surrounds `body` with the first two characters of `bookend`.
pub fn clamp(body: &str, bookend: &str) -> (result: String)
    ensures
        result@ == clamped(body@, bookend@),
{
    broadcast use vstd::string::group_string_axioms;

    let mut ends = bookend.chars();
    let left = ends.next();
    let right = ends.next();
    match (left, right) {
        (Some(l), Some(r)) => {
            let mut result = String::new();
            result.push(l);
            result.append(body);
            result.push(r);
            result
        },
        _ => body.to_owned(),
    }
}

/// Renders any finite sequence of printable elements as a bracketed list:
/// the separated elements between square brackets, with no separator after
/// the last one. Only the length is asked of the sequence, never the type of
/// its elements.
pub fn list_to_string<T: Printable>(items: &[T]) -> (result: String)
    ensures
        result@ == bracketed(items@),
{
    let body = put_coll_to_string(items);
    proof {
        reveal_strlit("[]");
    }
    clamp(body.as_str(), "[]")
}

/// The text an index walk has written once it has visited the positions
/// `0 .. upto`: each visited element followed by the separator.
pub open spec fn index_walk<T: Printable>(items: Seq<T>, upto: int) -> Seq<char>
    decreases upto,
{
    if upto <= 0 {
        Seq::empty()
    } else {
        index_walk(items, upto - 1) + items[upto - 1].text() + separator()
    }
}

/// The list text produced by walking an explicit index range: the elements
/// before the last each with a separator, then the last one on its own.
pub open spec fn rendered_by_index<T: Printable>(items: Seq<T>) -> Seq<char> {
    if items.len() == 0 {
        enclosed('[', Seq::empty(), ']')
    } else {
        enclosed('[', index_walk(items, items.len() - 1) + items.last().text(), ']')
    }
}

/// The text written by consuming `items` from the front, one element at a
/// time, each followed by the separator.
pub open spec fn drained<T: Printable>(items: Seq<T>) -> Seq<char>
    decreases items.len(),
{
    if items.len() == 0 {
        Seq::empty()
    } else {
        items.first().text() + separator() + drained(items.drop_first())
    }
}

/// The list text produced by the sequence's own iteration: all elements but
/// the last are consumed with a separator each, then the last one follows.
pub open spec fn rendered_by_iteration<T: Printable>(items: Seq<T>) -> Seq<char> {
    if items.len() == 0 {
        enclosed('[', Seq::empty(), ']')
    } else {
        enclosed('[', drained(items.drop_last()) + items.last().text(), ']')
    }
}

/// Consuming one more element at the end writes that element and a
/// separator after what was written before.
pub proof fn lemma_drained_push<T: Printable>(items: Seq<T>, item: T)
    ensures
        drained(items.push(item)) == drained(items) + item.text() + separator(),
    decreases items.len(),
{
    let longer = items.push(item);
    if items.len() == 0 {
        assert(longer.drop_first() == Seq::<T>::empty());
        assert(drained(longer) == item.text() + separator() + drained(Seq::<T>::empty()));
    } else {
        assert(longer.drop_first() == items.drop_first().push(item));
        lemma_drained_push(items.drop_first(), item);
        assert(drained(longer) == items.first().text() + separator() + (drained(
            items.drop_first(),
        ) + item.text() + separator()));
    }
}

/// An index walk over the first `upto` positions writes what consuming
/// those `upto` elements from the front writes.
pub proof fn lemma_index_walk_is_drained<T: Printable>(items: Seq<T>, upto: int)
    requires
        0 <= upto <= items.len(),
    ensures
        index_walk(items, upto) == drained(items.take(upto)),
    decreases upto,
{
    if upto > 0 {
        lemma_index_walk_is_drained(items, upto - 1);
        assert(items.take(upto) == items.take(upto - 1).push(items[upto - 1]));
        lemma_drained_push(items.take(upto - 1), items[upto - 1]);
    }
}

/// A joined list is what consuming all elements but the last writes,
/// followed by the last element without a separator.
pub proof fn lemma_joined_is_drained<T: Printable>(items: Seq<T>)
    requires
        items.len() > 0,
    ensures
        joined(items) == drained(items.drop_last()) + items.last().text(),
    decreases items.len(),
{
    if items.len() > 1 {
        let front = items.drop_last();
        lemma_joined_is_drained(front);
        assert(front == front.drop_last().push(front.last()));
        lemma_drained_push(front.drop_last(), front.last());
    }
}

/// Rendering by explicit index and rendering by the sequence's own
/// iteration give the same text for every sequence of every length, and that
/// text is the bracketed list.
pub proof fn lemma_rendering_paths_agree<T: Printable>(items: Seq<T>)
    ensures
        rendered_by_index(items) == rendered_by_iteration(items),
        rendered_by_index(items) == bracketed(items),
{
    if items.len() > 0 {
        lemma_index_walk_is_drained(items, items.len() - 1);
        lemma_joined_is_drained(items);
    }
}

/// Renders a fixed-size byte sequence as a bracketed list by walking an
/// explicit index range over all positions but the last, then writing the
/// last element without a separator.
pub fn define_and_iterate_byte_array<const N: usize>(ba: &[u8; N]) -> (result: String)
    ensures
        result@ == rendered_by_index(ba@),
        result@ == bracketed(ba@),
{
    proof {
        lemma_rendering_paths_agree(ba@);
    }
    let mut result = String::new();
    result.push('[');
    if N > 0 {
        let max: usize = N;
        for i in 0..max - 1
            invariant
                max == N,
                N > 0,
                result@ == seq!['['] + index_walk(ba@, i as int),
        {
            ba[i].print_to(&mut result);
            push_separator(&mut result);
        }
        ba[max - 1].print_to(&mut result);
    }
    result.push(']');
    result
}

/// Renders a byte sequence as a bracketed list with the sequence's own
/// iteration: all elements but the last are taken from an iterator and
/// written with a separator each, then the last one follows on its own.
pub fn idiomatic_define_and_iterate_byte_array(ba: &[u8]) -> (result: String)
    ensures
        result@ == rendered_by_iteration(ba@),
        result@ == bracketed(ba@),
{
    proof {
        lemma_rendering_paths_agree(ba@);
    }
    let mut result = String::new();
    result.push('[');
    let max: usize = ba.len();
    if max > 0 {
        let (front, back) = ba.split_at(max - 1);
        for item in it: front.iter()
            invariant
                result@ == seq!['['] + drained(front@.take(it.index())),
        {
            proof {
                let seen = front@.take(it.index());
                assert(front@.take(it.index() + 1) == seen.push(*item));
                lemma_drained_push(seen, *item);
            }
            item.print_to(&mut result);
            push_separator(&mut result);
        }
        assert(front@.take(front@.len() as int) == front@);
        back[0].print_to(&mut result);
    }
    result.push(']');
    result
}

} // verus!
