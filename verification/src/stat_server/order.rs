//! Stable sorting.

use vstd::prelude::*;

verus! {

/// Something that lists are sorted by.
pub trait Sortable: Sized {
    /// Whether `self` goes before `other`. Neither of two equals does.
    spec fn precedes(self, other: Self) -> bool;

    /// The order is a strict one in which being equal is transitive.
    proof fn lemma_order(a: Self, b: Self, c: Self)
        ensures
            !(a.precedes(b) && b.precedes(a)),
            a.precedes(c) ==> a.precedes(b) || b.precedes(c),
    ;

    /// Whether `self` goes before `other`.
    fn goes_before(&self, other: &Self) -> (before: bool)
        ensures
            before == self.precedes(*other),
    ;
}

/// A sorted list with one more item, in front of everything that does not go
/// before it.
pub open spec fn with_item<T: Sortable>(item: T, sorted: Seq<T>) -> Seq<T>
    decreases sorted.len(),
{
    if sorted.len() == 0 || !sorted[0].precedes(item) {
        seq![item] + sorted
    } else {
        seq![sorted[0]] + with_item(item, sorted.skip(1))
    }
}

/// A list in order. Items that are equal stay in the order they had.
pub open spec fn in_order<T: Sortable>(items: Seq<T>) -> Seq<T>
    decreases items.len(),
{
    if items.len() == 0 {
        Seq::empty()
    } else {
        with_item(items[0], in_order(items.skip(1)))
    }
}

/// Whether nothing in a list goes before what precedes it there.
pub open spec fn is_in_order<T: Sortable>(items: Seq<T>) -> bool {
    forall|i: int, j: int|
        0 <= i < j < items.len() ==> !(#[trigger] items[j]).precedes(#[trigger] items[i])
}

proof fn lemma_with_item_at<T: Sortable>(item: T, sorted: Seq<T>, at: int)
    requires
        0 <= at <= sorted.len(),
        forall|i: int| 0 <= i < at ==> (#[trigger] sorted[i]).precedes(item),
        at < sorted.len() ==> !sorted[at].precedes(item),
    ensures
        with_item(item, sorted) == sorted.insert(at, item),
    decreases sorted.len(),
{
    if at == 0 {
        assert(with_item(item, sorted) =~= sorted.insert(0, item));
    } else {
        assert(sorted[0].precedes(item));
        let rest = sorted.skip(1);
        assert forall|i: int| 0 <= i < at - 1 implies (#[trigger] rest[i]).precedes(item) by {
            assert(rest[i] == sorted[i + 1]);
        }
        if at < sorted.len() {
            assert(rest[at - 1] == sorted[at]);
        }
        lemma_with_item_at(item, rest, at - 1);
        assert(seq![sorted[0]] + rest.insert(at - 1, item) =~= sorted.insert(at, item));
    }
}

fn insert_in_order<T: Sortable>(sorted: &mut Vec<T>, item: T)
    requires
        old(sorted)@.len() < usize::MAX,
    ensures
        final(sorted)@ == with_item(item, old(sorted)@),
{
    let len: usize = sorted.len();
    let mut at: usize = 0;
    while at < len && sorted[at].goes_before(&item)
        invariant
            len == sorted@.len(),
            sorted@ == old(sorted)@,
            at <= len,
            forall|i: int| 0 <= i < at ==> (#[trigger] sorted@[i]).precedes(item),
        decreases len - at,
    {
        at += 1;
    }
    proof {
        lemma_with_item_at(item, sorted@, at as int);
    }
    sorted.insert(at, item);
}

/// Puts a list in order. Items that are equal stay in the order they had.
pub fn sort<T: Sortable>(items: Vec<T>) -> (sorted: Vec<T>)
    ensures
        sorted@ == in_order(items@),
{
    let ghost all = items@;
    let mut rest: Vec<T> = items;
    let mut sorted: Vec<T> = Vec::new();
    let len: usize = rest.len();
    assert(all.skip(all.len() as int) =~= Seq::empty());
    while rest.len() > 0
        invariant
            len == all.len(),
            rest@.len() <= all.len(),
            rest@ == all.take(rest@.len() as int),
            sorted@ == in_order(all.skip(rest@.len() as int)),
            sorted@.len() == all.len() - rest@.len(),
        decreases rest@.len(),
    {
        let ghost k = rest@.len() - 1;
        match rest.pop() {
            Some(item) => {
                assert(all.skip(k)[0] == item);
                assert(all.skip(k).skip(1) =~= all.skip(k + 1));
                assert(rest@ =~= all.take(k));
                proof {
                    lemma_with_item_len(item, sorted@);
                }
                insert_in_order(&mut sorted, item);
            },
            None => {},
        }
    }
    assert(all.skip(0) =~= all);
    sorted
}

proof fn lemma_with_item_len<T: Sortable>(item: T, sorted: Seq<T>)
    ensures
        with_item(item, sorted).len() == sorted.len() + 1,
    decreases sorted.len(),
{
    if sorted.len() > 0 && sorted[0].precedes(item) {
        lemma_with_item_len(item, sorted.skip(1));
    }
}

proof fn lemma_with_item<T: Sortable>(item: T, sorted: Seq<T>)
    requires
        is_in_order(sorted),
    ensures
        is_in_order(with_item(item, sorted)),
        with_item(item, sorted).to_multiset() == sorted.to_multiset().insert(item),
    decreases sorted.len(),
{
    broadcast use vstd::seq_lib::group_to_multiset_ensures;

    let result = with_item(item, sorted);
    if sorted.len() == 0 || !sorted[0].precedes(item) {
        assert forall|i: int, j: int| 0 <= i < j < result.len() implies !(
        #[trigger] result[j]).precedes(#[trigger] result[i]) by {
            if i == 0 {
                assert(result[j] == sorted[j - 1]);
                if j > 1 {
                    T::lemma_order(sorted[j - 1], sorted[0], item);
                }
            } else {
                assert(result[j] == sorted[j - 1] && result[i] == sorted[i - 1]);
            }
        }
        assert(result =~= sorted.insert(0, item));
        vstd::seq_lib::to_multiset_insert(sorted, 0, item);
    } else {
        let rest = sorted.skip(1);
        let tail = with_item(item, rest);
        assert forall|i: int, j: int| 0 <= i < j < rest.len() implies !(
        #[trigger] rest[j]).precedes(#[trigger] rest[i]) by {
            assert(rest[j] == sorted[j + 1] && rest[i] == sorted[i + 1]);
        }
        lemma_with_item(item, rest);
        assert(sorted =~= seq![sorted[0]] + rest);
        vstd::seq_lib::lemma_multiset_commutative(seq![sorted[0]], tail);
        vstd::seq_lib::lemma_multiset_commutative(seq![sorted[0]], rest);
        assert(result.to_multiset() =~= sorted.to_multiset().insert(item));
        assert forall|i: int, j: int| 0 <= i < j < result.len() implies !(
        #[trigger] result[j]).precedes(#[trigger] result[i]) by {
            assert(result[j] == tail[j - 1]);
            if i == 0 {
                assert(tail.to_multiset().contains(tail[j - 1]));
                if tail[j - 1] == item {
                    T::lemma_order(item, sorted[0], item);
                } else {
                    assert(rest.to_multiset().contains(tail[j - 1]));
                    assert(rest.contains(tail[j - 1]));
                    let k = choose|k: int| 0 <= k < rest.len() && rest[k] == tail[j - 1];
                    assert(rest[k] == sorted[k + 1]);
                }
            } else {
                assert(result[i] == tail[i - 1]);
            }
        }
    }
}

/// A list that has been put in order is in order, and holds what it held.
pub proof fn law_sorting_sorts<T: Sortable>(items: Seq<T>)
    ensures
        is_in_order(in_order(items)),
        in_order(items).to_multiset() == items.to_multiset(),
        in_order(items).len() == items.len(),
    decreases items.len(),
{
    broadcast use vstd::seq_lib::group_to_multiset_ensures;

    if items.len() > 0 {
        let rest = items.skip(1);
        law_sorting_sorts(rest);
        lemma_with_item(items[0], in_order(rest));
        lemma_with_item_len(items[0], in_order(rest));
        assert(items =~= seq![items[0]] + rest);
        vstd::seq_lib::lemma_multiset_commutative(seq![items[0]], rest);
        assert(in_order(items).to_multiset() =~= items.to_multiset());
    }
}

/// Whether two items are equal in the order.
pub open spec fn are_equal<T: Sortable>(a: T, b: T) -> bool {
    !a.precedes(b) && !b.precedes(a)
}

proof fn lemma_with_item_stable<T: Sortable>(item: T, sorted: Seq<T>, x: T)
    ensures
        with_item(item, sorted).filter(|y: T| are_equal(y, x)) == (seq![item] + sorted).filter(
            |y: T| are_equal(y, x),
        ),
    decreases sorted.len(),
{
    if sorted.len() > 0 && sorted[0].precedes(item) {
        let same = |y: T| are_equal(y, x);
        let first = seq![sorted[0]];
        let rest = sorted.skip(1);
        lemma_with_item_stable(item, rest, x);
        assert(sorted =~= first + rest);
        Seq::filter_distributes_over_add(first, with_item(item, rest), same);
        Seq::filter_distributes_over_add(seq![item], rest, same);
        Seq::filter_distributes_over_add(seq![item], sorted, same);
        Seq::filter_distributes_over_add(first, rest, same);
        lemma_filter_one(sorted[0], same);
        lemma_filter_one(item, same);
        // What goes before the item is not equal to it, so at most one of the two
        // is equal to `x`.
        T::lemma_order(sorted[0], x, item);
        T::lemma_order(x, sorted[0], item);
        assert(first.filter(same) + (seq![item].filter(same) + rest.filter(same)) =~= seq![
            item,
        ].filter(same) + (first.filter(same) + rest.filter(same)));
    }
}

proof fn lemma_filter_one<A>(x: A, keep: spec_fn(A) -> bool)
    ensures
        seq![x].filter(keep) == if keep(x) {
            seq![x]
        } else {
            Seq::empty()
        },
{
    reveal(Seq::filter);
    assert(seq![x].drop_last() =~= Seq::empty());
    assert(seq![x].drop_last().filter(keep) =~= Seq::empty());
    assert(seq![x].filter(keep) =~= if keep(x) {
        seq![x]
    } else {
        Seq::empty()
    });
}

/// Sorting leaves items that are equal in the order they had.
pub proof fn law_sorting_is_stable<T: Sortable>(items: Seq<T>, x: T)
    ensures
        in_order(items).filter(|y: T| are_equal(y, x)) == items.filter(
            |y: T| are_equal(y, x),
        ),
    decreases items.len(),
{
    if items.len() > 0 {
        let same = |y: T| are_equal(y, x);
        let first = seq![items[0]];
        let rest = items.skip(1);
        law_sorting_is_stable(rest, x);
        lemma_with_item_stable(items[0], in_order(rest), x);
        Seq::filter_distributes_over_add(first, in_order(rest), same);
        Seq::filter_distributes_over_add(first, rest, same);
        assert(items =~= first + rest);
    }
}

} // verus!
