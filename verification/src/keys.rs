//! What it means for items to stand in the order of their keys.

use core::cmp::Ordering;
use vstd::laws_cmp::group_laws_cmp;
use vstd::laws_cmp::obeys_cmp;
use vstd::laws_cmp::obeys_cmp_ord;
use vstd::laws_cmp::obeys_partial_cmp_spec_properties;
use vstd::prelude::*;
use vstd::std_specs::cmp::OrdSpec;
use vstd::std_specs::cmp::PartialOrdSpec;

verus! {

/// `key_fn` gives each item one key: whatever it returns for an item, it
/// returns the same for it every time.
pub open spec fn single_keyed<T, K, F: Fn(&T) -> K>(key_fn: F) -> bool {
    forall|item: T, a: K, b: K|
        #![trigger key_fn.ensures((&item,), a), key_fn.ensures((&item,), b)]
        key_fn.ensures((&item,), a) && key_fn.ensures((&item,), b) ==> a == b
}

/// The keys of `key_fn` can be sorted: their type is ordered as a total order
/// must be, and each item has one key.
pub open spec fn sortable<T, K: Ord, F: Fn(&T) -> K>(key_fn: F) -> bool {
    obeys_cmp::<K>() && single_keyed(key_fn)
}

/// No item stands before one with a smaller key.
pub open spec fn ascending<T, K: Ord, F: Fn(&T) -> K>(items: Seq<T>, key_fn: F) -> bool {
    forall|i: int, j: int, a: K, b: K|
        #![trigger key_fn.ensures((&items[i],), a), key_fn.ensures((&items[j],), b)]
        0 <= i < j < items.len() && key_fn.ensures((&items[i],), a) && key_fn.ensures(
            (&items[j],),
            b,
        ) ==> a.cmp_spec(&b) != Ordering::Greater
}

/// No item stands before one with a greater key.
pub open spec fn descending<T, K: Ord, F: Fn(&T) -> K>(items: Seq<T>, key_fn: F) -> bool {
    forall|i: int, j: int, a: K, b: K|
        #![trigger key_fn.ensures((&items[i],), a), key_fn.ensures((&items[j],), b)]
        0 <= i < j < items.len() && key_fn.ensures((&items[i],), a) && key_fn.ensures(
            (&items[j],),
            b,
        ) ==> a.cmp_spec(&b) != Ordering::Less
}

/// Turning an ascending sequence round gives a descending one.
pub proof fn lemma_reverse_descends<T, K: Ord, F: Fn(&T) -> K>(items: Seq<T>, key_fn: F)
    requires
        obeys_cmp::<K>(),
        ascending(items, key_fn),
    ensures
        descending(items.reverse(), key_fn),
{
    reveal(obeys_cmp_ord);
    reveal(obeys_partial_cmp_spec_properties);
    let turned = items.reverse();
    assert forall|i: int, j: int, a: K, b: K|
        #![trigger key_fn.ensures((&turned[i],), a), key_fn.ensures((&turned[j],), b)]
        0 <= i < j < turned.len() && key_fn.ensures((&turned[i],), a) && key_fn.ensures(
            (&turned[j],),
            b,
        ) implies a.cmp_spec(&b) != Ordering::Less by {
        let n = items.len();
        assert(turned[i] == items[n - 1 - i]);
        assert(turned[j] == items[n - 1 - j]);
        assert(key_fn.ensures((&items[n - 1 - j],), b));
        assert(key_fn.ensures((&items[n - 1 - i],), a));
        assert(b.cmp_spec(&a) != Ordering::Greater);
        assert(a.partial_cmp_spec(&b) == Some(a.cmp_spec(&b)));
        assert(b.partial_cmp_spec(&a) == Some(b.cmp_spec(&a)));
    }
}

/// Keys of type `u64` can be sorted as soon as each item has one key.
pub proof fn lemma_u64_keys_are_sortable<T, F: Fn(&T) -> u64>(key_fn: F)
    requires
        single_keyed(key_fn),
    ensures
        sortable(key_fn),
{
    broadcast use group_laws_cmp;

}

/// With `u64` keys, ascending says that the key of an earlier item is at
/// most the key of a later one.
pub proof fn lemma_ascending_u64<T, F: Fn(&T) -> u64>(
    items: Seq<T>,
    key_fn: F,
    i: int,
    j: int,
    a: u64,
    b: u64,
)
    requires
        ascending(items, key_fn),
        0 <= i < j < items.len(),
        key_fn.ensures((&items[i],), a),
        key_fn.ensures((&items[j],), b),
    ensures
        a <= b,
{
    assert(a.cmp_spec(&b) != Ordering::Greater);
}

/// With `u64` keys, descending says that the key of an earlier item is at
/// least the key of a later one.
pub proof fn lemma_descending_u64<T, F: Fn(&T) -> u64>(
    items: Seq<T>,
    key_fn: F,
    i: int,
    j: int,
    a: u64,
    b: u64,
)
    requires
        descending(items, key_fn),
        0 <= i < j < items.len(),
        key_fn.ensures((&items[i],), a),
        key_fn.ensures((&items[j],), b),
    ensures
        a >= b,
{
    assert(a.cmp_spec(&b) != Ordering::Less);
}

} // verus!
