//! The sum of the values of a finite map, by which the total supply is defined.

use vstd::prelude::*;
use crate::storage_types::DataKey;

verus! {

/// The sum of all values of `m`; meaningful where `m` holds finitely many keys.
pub open spec fn sum_values(m: Map<DataKey, i128>) -> int
    decreases m.dom().len(),
    when m.dom().finite()
{
    if m.dom().len() == 0 {
        0
    } else {
        let k = m.dom().choose();
        m[k] + sum_values(m.remove(k))
    }
}

/// The sum of the empty map is zero.
pub proof fn lemma_sum_empty()
    ensures
        sum_values(Map::<DataKey, i128>::empty()) == 0,
{
    assert(Map::<DataKey, i128>::empty().dom() =~= Set::<DataKey>::empty());
}

/// Any one key can be taken out of the sum.
pub proof fn lemma_sum_remove(m: Map<DataKey, i128>, key: DataKey)
    requires
        m.dom().finite(),
        m.contains_key(key),
    ensures
        sum_values(m) == m[key] + sum_values(m.remove(key)),
    decreases m.dom().len(),
{
    let k = m.dom().choose();
    if k != key {
        lemma_sum_remove(m.remove(k), key);
        lemma_sum_remove(m.remove(key), k);
        assert(m.remove(k).remove(key) =~= m.remove(key).remove(k));
    }
}

/// Storing `value` under `key` changes the sum by the difference to what was there.
pub proof fn lemma_sum_insert(m: Map<DataKey, i128>, key: DataKey, value: i128)
    requires
        m.dom().finite(),
    ensures
        m.insert(key, value).dom().finite(),
        sum_values(m.insert(key, value)) == sum_values(m) + value - (if m.contains_key(key) {
            m[key] as int
        } else {
            0
        }),
{
    let after = m.insert(key, value);
    lemma_sum_remove(after, key);
    if m.contains_key(key) {
        lemma_sum_remove(m, key);
        assert(after.remove(key) =~= m.remove(key));
    } else {
        assert(after.remove(key) =~= m);
    }
}

/// A sum of values that are all at least zero is at least zero.
pub proof fn lemma_sum_nonnegative(m: Map<DataKey, i128>)
    requires
        m.dom().finite(),
        forall|k: DataKey| m.contains_key(k) ==> #[trigger] m[k] >= 0,
    ensures
        sum_values(m) >= 0,
    decreases m.dom().len(),
{
    if m.dom().len() != 0 {
        let k = m.dom().choose();
        lemma_sum_nonnegative(m.remove(k));
    }
}

/// Where all values are at least zero, none exceeds the sum.
pub proof fn lemma_sum_bounds_value(m: Map<DataKey, i128>, key: DataKey)
    requires
        m.dom().finite(),
        forall|k: DataKey| m.contains_key(k) ==> #[trigger] m[k] >= 0,
        m.contains_key(key),
    ensures
        m[key] <= sum_values(m),
{
    lemma_sum_remove(m, key);
    lemma_sum_nonnegative(m.remove(key));
}

} // verus!
