//! Looking for the first element of a sequence that meets a condition.
use vstd::prelude::*;

verus! {

/// The index of the first of `items` that meets `wanted`.
pub open spec fn first_index<T>(items: Seq<T>, wanted: spec_fn(T) -> bool) -> Option<int>
    decreases items.len(),
{
    if items.len() == 0 {
        None
    } else {
        match first_index(items.drop_last(), wanted) {
            Some(i) => Some(i),
            None => if wanted(items.last()) {
                Some(items.len() - 1)
            } else {
                None
            },
        }
    }
}

/// The first of `items` that meets `wanted`.
pub open spec fn first<T>(items: Seq<T>, wanted: spec_fn(T) -> bool) -> Option<T> {
    match first_index(items, wanted) {
        Some(i) => Some(items[i]),
        None => None,
    }
}

/// The first index is one that meets the condition, and none before it does; there is none
/// exactly when no element meets it.
pub proof fn first_index_is_first<T>(items: Seq<T>, wanted: spec_fn(T) -> bool)
    ensures
        match first_index(items, wanted) {
            Some(i) => 0 <= i < items.len() && wanted(items[i]) && forall|j: int|
                0 <= j < i ==> !wanted(#[trigger] items[j]),
            None => forall|j: int| 0 <= j < items.len() ==> !wanted(#[trigger] items[j]),
        },
    decreases items.len(),
{
    if items.len() > 0 {
        first_index_is_first(items.drop_last(), wanted);
        assert(forall|j: int| 0 <= j < items.len() - 1 ==> items[j] == items.drop_last()[j]);
    }
}

/// An index that meets the condition, with none before it that does, is the first one.
pub proof fn first_index_is_unique<T>(items: Seq<T>, wanted: spec_fn(T) -> bool, i: int)
    requires
        0 <= i < items.len(),
        wanted(items[i]),
        forall|j: int| 0 <= j < i ==> !wanted(#[trigger] items[j]),
    ensures
        first_index(items, wanted) == Some(i),
{
    first_index_is_first(items, wanted);
}

/// Conditions that agree on every element find the same one first.
pub proof fn first_index_goes_by_meaning<T>(
    items: Seq<T>,
    wanted: spec_fn(T) -> bool,
    other: spec_fn(T) -> bool,
)
    requires
        forall|i: int| 0 <= i < items.len() ==> wanted(#[trigger] items[i]) == other(items[i]),
    ensures
        first_index(items, wanted) == first_index(items, other),
{
    first_index_is_first(items, wanted);
    first_index_is_first(items, other);
    match first_index(items, wanted) {
        Some(i) => {
            first_index_is_unique(items, other, i);
        },
        None => {},
    }
}

} // verus!
