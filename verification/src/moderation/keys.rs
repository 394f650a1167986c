//! Accounts of a map in increasing order.
use vstd::prelude::*;

use std::collections::BTreeMap;
use vstd::std_specs::btree::{axiom_increasing_seq_meaning, increasing_seq, spec_keys_iter};
use vstd::std_specs::cmp::OrdSpec;
use vstd::std_specs::iter::IteratorSpec;

use crate::system::AccountId;

verus! {

/// The accounts of `m`, in increasing order.
pub fn sorted_keys<V>(m: &BTreeMap<AccountId, V>) -> (r: Vec<AccountId>)
    ensures
        r@.to_set() == m@.dom(),
        r@.no_duplicates(),
        r@.len() == m@.dom().len(),
        forall|i: int, j: int| 0 <= i < j < r@.len() ==> r@[i] < r@[j],
{
    let ghost keys = spec_keys_iter(m).remaining();
    let mut ids: Vec<AccountId> = Vec::new();
    for k in it: m.keys()
        invariant
            it.seq() == keys,
            ids.len() == it.index(),
            forall|i: int| 0 <= i < ids.len() ==> ids@[i] == *keys[i],
    {
        ids.push(*k);
    }
    proof {
        broadcast use vstd::std_specs::btree::axiom_spec_keys_iter;

        assert(ids.len() == keys.len());
        assert(ids@ =~= keys.unref());
        assert(vstd::laws_cmp::obeys_cmp::<u64>());
        assert(vstd::laws_cmp::obeys_cmp::<&u64>());
        assert(increasing_seq(keys));
        axiom_increasing_seq_meaning::<&u64>(keys);
        assert forall|i: int, j: int| 0 <= i < j < ids@.len() implies ids@[i] < ids@[j] by {
            assert(OrdSpec::cmp_spec(&keys[i], &keys[j]) is Less);
        }
    }
    ids
}

} // verus!
