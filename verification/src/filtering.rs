//! Facts about filtering maps over sequences, as the extraction uses them.

use vstd::prelude::*;

verus! {

/// Nothing or one element, as a sequence.
pub open spec fn optional<A>(item: Option<A>) -> Seq<A> {
    match item {
        Some(value) => seq![value],
        None => Seq::empty(),
    }
}

/// A filtering map over a sequence with one more element in front filters
/// that element first and the rest after it.
pub proof fn filter_map_of_prepended<A, B>(first: A, rest: Seq<A>, f: spec_fn(A) -> Option<B>)
    ensures
        (seq![first] + rest).filter_map(f) == optional(f(first)) + rest.filter_map(f),
    decreases rest.len(),
{
    let whole = seq![first] + rest;
    if rest.len() == 0 {
        assert(whole.drop_last().filter_map(f) =~= Seq::<B>::empty());
    } else {
        assert(whole.drop_last() =~= seq![first] + rest.drop_last());
        filter_map_of_prepended(first, rest.drop_last(), f);
    }
}

/// A filtering map over a sequence with one more element at its end filters
/// the sequence first and that element after it.
pub proof fn filter_map_of_pushed<A, B>(items: Seq<A>, last: A, f: spec_fn(A) -> Option<B>)
    ensures
        items.push(last).filter_map(f) == items.filter_map(f) + optional(f(last)),
{
    let whole = items.push(last);
    assert(whole.drop_last() =~= items);
}

/// A filtering map that accepts nothing gives nothing.
pub proof fn filter_map_of_rejected<A, B>(items: Seq<A>, f: spec_fn(A) -> Option<B>)
    requires
        forall|i: int| 0 <= i < items.len() ==> f(#[trigger] items[i]) is None,
    ensures
        items.filter_map(f) == Seq::<B>::empty(),
    decreases items.len(),
{
    if items.len() > 0 {
        filter_map_of_rejected(items.drop_last(), f);
    }
}

/// A filtering map that accepts everything keeps the length and the order.
pub proof fn filter_map_of_accepted<A, B>(items: Seq<A>, f: spec_fn(A) -> Option<B>)
    requires
        forall|i: int| 0 <= i < items.len() ==> f(#[trigger] items[i]) is Some,
    ensures
        items.filter_map(f).len() == items.len(),
        forall|i: int|
            0 <= i < items.len() ==> f(items[i]) == Some(#[trigger] items.filter_map(f)[i]),
    decreases items.len(),
{
    if items.len() > 0 {
        filter_map_of_accepted(items.drop_last(), f);
    }
}

} // verus!
