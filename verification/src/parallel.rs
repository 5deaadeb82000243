//! The calls into rayon's parallel iterators and parallel sort.
//!
//! Verus does not read rayon. Each function here makes one call and states
//! what rayon's documentation promises of it; nothing in this file is proved.

use crate::keys::ascending;
use crate::keys::sortable;
use rayon::iter::IntoParallelIterator;
use rayon::iter::IntoParallelRefIterator;
use rayon::iter::ParallelIterator;
use rayon::slice::ParallelSliceMut;
use vstd::prelude::*;

verus! {

/// `into_par_iter().map(f).collect()` on a vector, into a vector.
///
/// Rayon collects an indexed parallel iterator in the order of its source, so
/// the result has one entry per item, each a result of `f` on the item at the
/// same index, whichever thread ran it and whenever.
#[verifier::external_body]
pub(crate) fn map_each<A: Send, B: Send, F: Fn(A) -> B + Send + Sync>(items: Vec<A>, f: F) -> (out:
    Vec<B>)
    requires
        forall|i: int| 0 <= i < items@.len() ==> f.requires((#[trigger] items@[i],)),
    ensures
        out@.len() == items@.len(),
        forall|i: int| 0 <= i < items@.len() ==> f.ensures((items@[i],), #[trigger] out@[i]),
{
    items.into_par_iter().map(f).collect()
}

/// `par_iter().map(f).collect()` on a borrowed vector, into a vector.
///
/// As `map_each`, with `f` taking each item by reference.
#[verifier::external_body]
pub(crate) fn map_each_ref<A: Sync, B: Send, F: Fn(&A) -> B + Send + Sync>(
    items: &Vec<A>,
    f: F,
) -> (out: Vec<B>)
    requires
        forall|i: int| 0 <= i < items@.len() ==> f.requires((&#[trigger] items@[i],)),
    ensures
        out@.len() == items@.len(),
        forall|i: int| 0 <= i < items@.len() ==> f.ensures((&items@[i],), #[trigger] out@[i]),
{
    items.par_iter().map(f).collect()
}

/// `par_iter().map(f).collect()` on a borrowed vector, into a `Result` of a
/// vector.
///
/// Rayon returns `Ok` only when `f` gave `Ok` for every item, and then the
/// values stand in the order of the items. When some call gave `Err`, it
/// returns one of the errors that were given: which one is not determined,
/// and calls on other items may have been skipped.
#[verifier::external_body]
pub(crate) fn try_map_each_ref<A: Sync, B: Send, E: Send, F: Fn(&A) -> Result<B, E> + Send + Sync>(
    items: &Vec<A>,
    f: F,
) -> (out: Result<Vec<B>, E>)
    requires
        forall|i: int| 0 <= i < items@.len() ==> f.requires((&#[trigger] items@[i],)),
    ensures
        match out {
            Ok(values) => {
                &&& values@.len() == items@.len()
                &&& forall|i: int|
                    0 <= i < items@.len() ==> f.ensures((&items@[i],), Ok(#[trigger] values@[i]))
            },
            Err(e) => exists|i: int|
                0 <= i < items@.len() && f.ensures((&#[trigger] items@[i],), Err(e)),
        },
{
    items.par_iter().map(f).collect()
}

/// `par_sort_by_key(key_fn)` on a vector.
///
/// Rayon sorts in place by comparing the keys with `<`: the items are the
/// same as before, and where the keys can be sorted no item stands before one
/// with a smaller key. Rayon also keeps items with equal keys in their order;
/// that is not stated here, and nothing in the library builds on it.
#[verifier::external_body]
pub(crate) fn sort_each_by_key<T: Send, K: Ord, F: Fn(&T) -> K + Sync>(
    items: &mut Vec<T>,
    key_fn: F,
)
    requires
        forall|i: int|
            0 <= i < old(items)@.len() ==> key_fn.requires((&#[trigger] old(items)@[i],)),
    ensures
        final(items)@.to_multiset() == old(items)@.to_multiset(),
        sortable(key_fn) ==> ascending(final(items)@, key_fn),
{
    items.par_sort_by_key(key_fn)
}

} // verus!
