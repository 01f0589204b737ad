//! The building blocks of the JSON texts that the stat server writes itself.

use vstd::prelude::*;

verus! {

/// Pieces of text, one behind the other.
pub open spec fn flat(pieces: Seq<Seq<char>>) -> Seq<char>
    decreases pieces.len(),
{
    if pieces.len() == 0 {
        Seq::empty()
    } else {
        flat(pieces.drop_last()) + pieces.last()
    }
}

/// What stands behind the entry `i` of `n`: `between`, or `end` behind the last.
pub open spec fn mark(i: int, n: int, between: Seq<char>, end: Seq<char>) -> Seq<char> {
    if i != n - 1 {
        between
    } else {
        end
    }
}

/// Pieces of text with `sep` between them.
pub open spec fn joined(pieces: Seq<Seq<char>>, sep: Seq<char>) -> Seq<char>
    decreases pieces.len(),
{
    if pieces.len() == 0 {
        Seq::empty()
    } else if pieces.len() == 1 {
        pieces[0]
    } else {
        joined(pieces.drop_last(), sep) + sep + pieces.last()
    }
}

pub(crate) proof fn lemma_flat_next(pieces: Seq<Seq<char>>, i: int)
    requires
        0 <= i < pieces.len(),
    ensures
        flat(pieces.take(i + 1)) == flat(pieces.take(i)) + pieces[i],
{
    assert(pieces.take(i + 1).drop_last() =~= pieces.take(i));
}

pub(crate) proof fn lemma_flat_whole(pieces: Seq<Seq<char>>)
    ensures
        pieces.take(0) == Seq::<Seq<char>>::empty(),
        flat(pieces.take(0)) == Seq::<char>::empty(),
        flat(pieces.take(pieces.len() as int)) == flat(pieces),
{
    assert(pieces.take(0) =~= Seq::<Seq<char>>::empty());
    assert(pieces.take(pieces.len() as int) =~= pieces);
}

pub(crate) proof fn lemma_filter_next<A>(s: Seq<A>, i: int, keep: spec_fn(A) -> bool)
    requires
        0 <= i < s.len(),
    ensures
        s.take(i + 1).filter(keep) == if keep(s[i]) {
            s.take(i).filter(keep).push(s[i])
        } else {
            s.take(i).filter(keep)
        },
{
    reveal(Seq::filter);
    assert(s.take(i + 1).drop_last() =~= s.take(i));
}

pub(crate) proof fn lemma_filter_whole<A>(s: Seq<A>, keep: spec_fn(A) -> bool)
    ensures
        s.take(0).filter(keep) == Seq::<A>::empty(),
        s.take(s.len() as int).filter(keep) == s.filter(keep),
{
    reveal(Seq::filter);
    assert(s.take(0).filter(keep) =~= Seq::<A>::empty());
    assert(s.take(s.len() as int) =~= s);
}

/// What is in each of a list of texts.
pub open spec fn text_views(texts: Seq<String>) -> Seq<Seq<char>> {
    Seq::new(texts.len(), |i: int| texts[i]@)
}

} // verus!
