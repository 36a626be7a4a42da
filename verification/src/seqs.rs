//! Searching and sifting sequences.
use vstd::prelude::*;

verus! {

/// The first item that is wanted.
pub open spec fn first_where<A>(items: Seq<A>, wanted: spec_fn(A) -> bool) -> Option<A>
    decreases items.len(),
{
    if items.len() == 0 {
        None
    } else if wanted(items.first()) {
        Some(items.first())
    } else {
        first_where(items.drop_first(), wanted)
    }
}

/// The first value that a choice finds among the items.
pub open spec fn first_found<A, B>(items: Seq<A>, find: spec_fn(A) -> Option<B>) -> Option<B>
    decreases items.len(),
{
    if items.len() == 0 {
        None
    } else if find(items.first()) is Some {
        find(items.first())
    } else {
        first_found(items.drop_first(), find)
    }
}

/// The search goes on past an item that is not wanted and stops at one that is.
pub(crate) proof fn lemma_first_where_step<A>(items: Seq<A>, wanted: spec_fn(A) -> bool, i: int)
    requires
        0 <= i < items.len(),
    ensures
        first_where(items.skip(i), wanted) == (if wanted(items[i]) {
            Some(items[i])
        } else {
            first_where(items.skip(i + 1), wanted)
        }),
{
    assert(items.skip(i).drop_first() =~= items.skip(i + 1));
}

/// The search goes on past an item in which nothing is found.
pub(crate) proof fn lemma_first_found_step<A, B>(
    items: Seq<A>,
    find: spec_fn(A) -> Option<B>,
    i: int,
)
    requires
        0 <= i < items.len(),
    ensures
        first_found(items.skip(i), find) == (if find(items[i]) is Some {
            find(items[i])
        } else {
            first_found(items.skip(i + 1), find)
        }),
{
    assert(items.skip(i).drop_first() =~= items.skip(i + 1));
}

/// What the search finds is a wanted item, the first of them; it finds none only
/// where there is none.
pub proof fn lemma_first_where<A>(items: Seq<A>, wanted: spec_fn(A) -> bool)
    ensures
        first_where(items, wanted) matches Some(found) ==> wanted(found) && exists|i: int|
            0 <= i < items.len() && #[trigger] items[i] == found && (forall|j: int|
                0 <= j < i ==> !wanted(#[trigger] items[j])),
        first_where(items, wanted) is None <==> (forall|i: int|
            0 <= i < items.len() ==> !wanted(#[trigger] items[i])),
    decreases items.len(),
{
    if items.len() > 0 {
        let rest = items.drop_first();
        lemma_first_where(rest, wanted);
        if wanted(items.first()) {
            assert(items[0] == items.first());
        } else {
            assert forall|i: int| 0 < i < items.len() implies #[trigger] items[i] == rest[i - 1] by {}
            if first_where(rest, wanted) is Some {
                let found = first_where(rest, wanted)->0;
                let i = choose|i: int|
                    0 <= i < rest.len() && #[trigger] rest[i] == found && (forall|j: int|
                        0 <= j < i ==> !wanted(#[trigger] rest[j]));
                assert(items[i + 1] == found);
                assert forall|j: int| 0 <= j < i + 1 implies !wanted(#[trigger] items[j]) by {
                    if j > 0 {
                        assert(items[j] == rest[j - 1]);
                    }
                }
            } else {
                assert forall|i: int| 0 <= i < items.len() implies !wanted(#[trigger] items[i]) by {
                    if i > 0 {
                        assert(items[i] == rest[i - 1]);
                    }
                }
            }
            if forall|i: int| 0 <= i < items.len() ==> !wanted(#[trigger] items[i]) {
                assert forall|i: int| 0 <= i < rest.len() implies !wanted(#[trigger] rest[i]) by {
                    assert(rest[i] == items[i + 1]);
                }
            }
        }
    }
}

/// What the search finds comes from the first item in which anything is found; it
/// finds nothing only where there is nothing to find.
pub proof fn lemma_first_found<A, B>(items: Seq<A>, find: spec_fn(A) -> Option<B>)
    ensures
        first_found(items, find) is Some ==> exists|i: int|
            0 <= i < items.len() && find(#[trigger] items[i]) == first_found(items, find) && (
            forall|j: int| 0 <= j < i ==> find(#[trigger] items[j]) is None),
        first_found(items, find) is None <==> (forall|i: int|
            0 <= i < items.len() ==> find(#[trigger] items[i]) is None),
    decreases items.len(),
{
    if items.len() > 0 {
        let rest = items.drop_first();
        lemma_first_found(rest, find);
        if find(items[0]) is None {
            assert forall|i: int| 0 < i < items.len() implies #[trigger] items[i] == rest[i - 1] by {}
            if first_found(rest, find) is Some {
                let i = choose|i: int|
                    0 <= i < rest.len() && find(#[trigger] rest[i]) == first_found(rest, find) && (
                    forall|j: int| 0 <= j < i ==> find(#[trigger] rest[j]) is None);
                assert(items[i + 1] == rest[i]);
                assert forall|j: int| 0 <= j < i + 1 implies find(#[trigger] items[j]) is None by {
                    if j > 0 {
                        assert(items[j] == rest[j - 1]);
                    }
                }
            } else {
                assert forall|i: int| 0 <= i < items.len() implies find(#[trigger] items[i]) is None by {
                    if i > 0 {
                        assert(items[i] == rest[i - 1]);
                    }
                }
            }
        }
    }
}

/// Sifting one more item.
pub(crate) proof fn lemma_filter_step<A>(items: Seq<A>, kept: spec_fn(A) -> bool, i: int)
    requires
        0 <= i < items.len(),
    ensures
        items.take(i + 1).filter(kept) == (if kept(items[i]) {
            items.take(i).filter(kept).push(items[i])
        } else {
            items.take(i).filter(kept)
        }),
{
    reveal(Seq::filter);
    assert(items.take(i + 1).drop_last() =~= items.take(i));
}

/// Sifting and converting one more item.
pub(crate) proof fn lemma_filter_map_step<A, B>(items: Seq<A>, kept: spec_fn(A) -> Option<B>, i: int)
    requires
        0 <= i < items.len(),
    ensures
        items.take(i + 1).filter_map(kept) == (match kept(items[i]) {
            Some(value) => items.take(i).filter_map(kept).push(value),
            None => items.take(i).filter_map(kept),
        }),
{
    reveal(Seq::filter_map);
    assert(items.take(i + 1).drop_last() =~= items.take(i));
}

/// Nothing is left of nothing.
pub(crate) proof fn lemma_sift_none<A, B>(items: Seq<A>, kept: spec_fn(A) -> Option<B>)
    ensures
        items.take(0).filter_map(kept) == Seq::<B>::empty(),
{
    reveal(Seq::filter_map);
}

} // verus!
