//! Small mathematical helpers that the contracts of several modules share.

use vstd::prelude::*;

verus! {

/// The view of every item of a sequence.
pub open spec fn views<T: View>(items: Seq<T>) -> Seq<T::V> {
    items.map_values(|item: T| item@)
}

/// Taking views commutes with appending an item.
pub proof fn views_push<T: View>(items: Seq<T>, item: T)
    ensures
        views(items.push(item)) == views(items).push(item@),
{
    assert(views(items.push(item)) =~= views(items).push(item@));
}

/// Taking views commutes with concatenation.
pub proof fn views_concat<T: View>(left: Seq<T>, right: Seq<T>)
    ensures
        views(left + right) == views(left) + views(right),
{
    assert(views(left + right) =~= views(left) + views(right));
}

/// Filtering one item more either appends that item or changes nothing.
pub proof fn filter_step<A>(items: Seq<A>, keep: spec_fn(A) -> bool, i: int)
    requires
        0 <= i < items.len(),
    ensures
        items.take(i + 1).filter(keep) == if keep(items[i]) {
            items.take(i).filter(keep).push(items[i])
        } else {
            items.take(i).filter(keep)
        },
{
    reveal(Seq::filter);
    assert(items.take(i + 1).drop_last() =~= items.take(i));
}

/// Filtering nothing gives nothing.
pub proof fn filter_empty<A>(keep: spec_fn(A) -> bool)
    ensures
        Seq::<A>::empty().filter(keep) == Seq::<A>::empty(),
{
    reveal(Seq::filter);
}

/// Every item of a filtered sequence is an item of the sequence that passes
/// the filter, and every such item is in the filtered sequence.
pub proof fn filter_members<A>(items: Seq<A>, keep: spec_fn(A) -> bool)
    ensures
        forall|x: A| #[trigger] items.filter(keep).contains(x) <==> items.contains(x) && keep(x),
    decreases items.len(),
{
    reveal(Seq::filter);
    if items.len() > 0 {
        let front = items.drop_last();
        filter_members(front, keep);
        assert forall|x: A| #[trigger]
            items.filter(keep).contains(x) <==> items.contains(x) && keep(x) by {
            if items.filter(keep).contains(x) {
                if keep(items.last()) && x == items.last() {
                    assert(items[items.len() - 1] == x);
                } else {
                    let at = choose|at: int|
                        0 <= at < items.filter(keep).len() && items.filter(keep)[at] == x;
                    if keep(items.last()) {
                        assert(front.filter(keep).push(items.last())[at] == x);
                        assert(at < front.filter(keep).len());
                        assert(front.filter(keep)[at] == x);
                    }
                    assert(front.filter(keep).contains(x));
                    let pos = choose|pos: int| 0 <= pos < front.len() && front[pos] == x;
                    assert(items[pos] == x);
                }
            }
            if items.contains(x) && keep(x) {
                let pos = choose|pos: int| 0 <= pos < items.len() && items[pos] == x;
                if pos == items.len() - 1 {
                    assert(items.filter(keep) == front.filter(keep).push(x));
                    assert(front.filter(keep).push(x)[front.filter(keep).len() as int] == x);
                } else {
                    assert(front[pos] == x);
                    assert(front.filter(keep).contains(x));
                    let at = choose|at: int|
                        0 <= at < front.filter(keep).len() && front.filter(keep)[at] == x;
                    if keep(items.last()) {
                        assert(front.filter(keep).push(items.last())[at] == x);
                    }
                }
            }
        }
    }
}

/// A filter that every item passes keeps the sequence as it is, and one
/// that no item passes leaves nothing.
pub proof fn filter_all_or_none<A>(items: Seq<A>, keep: spec_fn(A) -> bool)
    ensures
        (forall|i: int| 0 <= i < items.len() ==> keep(#[trigger] items[i])) ==> items.filter(keep)
            == items,
        (forall|i: int| 0 <= i < items.len() ==> !keep(#[trigger] items[i])) ==> items.filter(
            keep,
        ) == Seq::<A>::empty(),
    decreases items.len(),
{
    reveal(Seq::filter);
    if items.len() > 0 {
        let front = items.drop_last();
        filter_all_or_none(front, keep);
        if forall|i: int| 0 <= i < items.len() ==> keep(#[trigger] items[i]) {
            assert forall|i: int| 0 <= i < front.len() implies keep(#[trigger] front[i]) by {
                assert(front[i] == items[i]);
            }
            assert(keep(items[items.len() - 1]));
            assert(front.push(items.last()) =~= items);
        }
        if forall|i: int| 0 <= i < items.len() ==> !keep(#[trigger] items[i]) {
            assert forall|i: int| 0 <= i < front.len() implies !keep(#[trigger] front[i]) by {
                assert(front[i] == items[i]);
            }
            assert(!keep(items[items.len() - 1]));
        }
    } else {
        assert(items =~= Seq::<A>::empty());
    }
}

/// A filter and its complement split a sequence: between them they hold
/// every item as often as the sequence does.
pub proof fn filter_partition<A>(items: Seq<A>, keep: spec_fn(A) -> bool, drop: spec_fn(A) -> bool)
    requires
        forall|x: A| #[trigger] drop(x) == !keep(x),
    ensures
        items.filter(keep).to_multiset().add(items.filter(drop).to_multiset())
            == items.to_multiset(),
    decreases items.len(),
{
    broadcast use vstd::multiset::group_multiset_axioms;
    broadcast use vstd::seq_lib::group_to_multiset_ensures;

    reveal(Seq::filter);
    if items.len() == 0 {
        assert(items.filter(keep).to_multiset().add(items.filter(drop).to_multiset())
            =~= items.to_multiset());
    } else {
        let front = items.drop_last();
        let last = items.last();
        filter_partition(front, keep, drop);
        assert(items =~= front.push(last));
        assert(front.push(last).to_multiset() =~= front.to_multiset().insert(last));
        if keep(last) {
            assert(!drop(last));
            assert(items.filter(keep) == front.filter(keep).push(last));
            assert(items.filter(drop) == front.filter(drop));
            assert(front.filter(keep).push(last).to_multiset() =~= front.filter(
                keep,
            ).to_multiset().insert(last));
        } else {
            assert(drop(last));
            assert(items.filter(keep) == front.filter(keep));
            assert(items.filter(drop) == front.filter(drop).push(last));
            assert(front.filter(drop).push(last).to_multiset() =~= front.filter(
                drop,
            ).to_multiset().insert(last));
        }
        assert(items.filter(keep).to_multiset().add(items.filter(drop).to_multiset())
            =~= items.to_multiset());
    }
}

/// The view of an optional item.
pub open spec fn view_of<T: View>(item: Option<T>) -> Option<T::V> {
    match item {
        Some(inner) => Some(inner@),
        None => None,
    }
}

} // verus!
