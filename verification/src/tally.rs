//! Counting pieces in sequences: the arithmetic behind fleets, stars and the
//! bank's bookkeeping.

use vstd::prelude::*;
use crate::common::{Color, Piece, Size};

verus! {

/// How many times `p` occurs in `s`.
pub open spec fn occurrences(s: Seq<Piece>, p: Piece) -> nat
    decreases s.len(),
{
    if s.len() == 0 {
        0
    } else {
        occurrences(s.drop_last(), p) + if s.last() == p { 1nat } else { 0nat }
    }
}

/// How many pieces of colour `c` occur in `s`, whatever their size.
pub open spec fn color_occurrences(s: Seq<Piece>, c: Color) -> nat {
    occurrences(s, Piece { color: c, size: Size::SMALL })
        + occurrences(s, Piece { color: c, size: Size::MEDIUM })
        + occurrences(s, Piece { color: c, size: Size::LARGE })
}

/// `s` without its pieces of colour `c`, the others in their old order.
pub open spec fn without_color(s: Seq<Piece>, c: Color) -> Seq<Piece> {
    s.filter(|q: Piece| q.color != c)
}

/// The pieces of colour `c` in `s`, in their old order.
pub open spec fn only_color(s: Seq<Piece>, c: Color) -> Seq<Piece> {
    s.filter(|q: Piece| q.color == c)
}

pub proof fn occurrences_push(s: Seq<Piece>, q: Piece, p: Piece)
    ensures
        occurrences(s.push(q), p) == occurrences(s, p) + if q == p { 1nat } else { 0nat },
{
    assert(s.push(q).drop_last() =~= s);
}

pub proof fn occurrences_bounded(s: Seq<Piece>, p: Piece)
    ensures
        occurrences(s, p) <= s.len(),
    decreases s.len(),
{
    if s.len() > 0 {
        occurrences_bounded(s.drop_last(), p);
    }
}

pub proof fn occurrences_concat(a: Seq<Piece>, b: Seq<Piece>, p: Piece)
    ensures
        occurrences(a + b, p) == occurrences(a, p) + occurrences(b, p),
    decreases b.len(),
{
    if b.len() == 0 {
        assert(a + b =~= a);
    } else {
        assert((a + b).drop_last() =~= a + b.drop_last());
        occurrences_concat(a, b.drop_last(), p);
    }
}

/// Taking out the piece at position `i` lowers the count of that piece by
/// one and leaves every other count as it was.
pub proof fn occurrences_remove(s: Seq<Piece>, i: int, p: Piece)
    requires
        0 <= i < s.len(),
    ensures
        occurrences(s, p) == occurrences(s.remove(i), p) + if s[i] == p { 1nat } else { 0nat },
{
    let head = s.subrange(0, i);
    let tail = s.subrange(i + 1, s.len() as int);
    assert(s =~= head.push(s[i]) + tail);
    assert(s.remove(i) =~= head + tail);
    occurrences_concat(head.push(s[i]), tail, p);
    occurrences_concat(head, tail, p);
    occurrences_push(head, s[i], p);
}

/// Filtering keeps the count of every piece that passes and drops every
/// other piece.
pub proof fn occurrences_filter(s: Seq<Piece>, keep: spec_fn(Piece) -> bool, p: Piece)
    ensures
        occurrences(s.filter(keep), p) == if keep(p) {
            occurrences(s, p)
        } else {
            0nat
        },
    decreases s.len(),
{
    reveal(Seq::filter);
    if s.len() > 0 {
        occurrences_filter(s.drop_last(), keep, p);
        let rest = s.drop_last().filter(keep);
        if keep(s.last()) {
            assert(s.filter(keep) == rest.push(s.last()));
            occurrences_push(rest, s.last(), p);
        } else {
            assert(s.filter(keep) == rest);
        }
    }
}

/// Filtering a colour out removes every piece of that colour and keeps the
/// count of every other piece.
pub proof fn occurrences_without_color(s: Seq<Piece>, c: Color, p: Piece)
    ensures
        occurrences(without_color(s, c), p) == if p.color == c {
            0nat
        } else {
            occurrences(s, p)
        },
        occurrences(only_color(s, c), p) == if p.color == c {
            occurrences(s, p)
        } else {
            0nat
        },
{
    occurrences_filter(s, |q: Piece| q.color != c, p);
    occurrences_filter(s, |q: Piece| q.color == c, p);
}

/// Extending a sequence by one piece extends exactly one of its two colour
/// filters by that piece.
pub proof fn color_split_push(s: Seq<Piece>, q: Piece, c: Color)
    ensures
        without_color(s.push(q), c) == if q.color != c {
            without_color(s, c).push(q)
        } else {
            without_color(s, c)
        },
        only_color(s.push(q), c) == if q.color == c {
            only_color(s, c).push(q)
        } else {
            only_color(s, c)
        },
{
    reveal(Seq::filter);
    assert(s.push(q).drop_last() =~= s);
}

/// The pieces of a colour in a sequence are its pieces of some size.
pub proof fn color_occurrences_push(s: Seq<Piece>, q: Piece, c: Color)
    ensures
        color_occurrences(s.push(q), c) == color_occurrences(s, c) + if q.color == c {
            1nat
        } else {
            0nat
        },
{
    occurrences_push(s, q, Piece { color: c, size: Size::SMALL });
    occurrences_push(s, q, Piece { color: c, size: Size::MEDIUM });
    occurrences_push(s, q, Piece { color: c, size: Size::LARGE });
}

} // verus!
