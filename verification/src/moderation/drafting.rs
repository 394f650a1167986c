//! Drafting the moderators of a report: the accounts with the smallest
//! identifiers come first.
use vstd::prelude::*;

use std::collections::BTreeMap;

use crate::currency::Currency;
use crate::moderation::keys::sorted_keys;
use crate::moderation::spec::{first_keys, is_first_keys};
use crate::moderation::types::Pallet;
use crate::system::{AccountId, DispatchError};

verus! {

proof fn lemma_first_keys_agree(r1: Seq<AccountId>, r2: Seq<AccountId>, dom: Set<AccountId>, n: nat, i: int)
    requires
        is_first_keys(r1, dom, n),
        is_first_keys(r2, dom, n),
        0 <= i < r1.len(),
        i < r2.len(),
    ensures
        forall|j: int| 0 <= j <= i ==> r1[j] == r2[j],
    decreases i,
{
    if i > 0 {
        lemma_first_keys_agree(r1, r2, dom, n, i - 1);
    }
    let a = r1[i];
    let b = r2[i];
    if a < b {
        assert(dom.contains(a));
        if r2.contains(a) {
            let p = choose|p: int| 0 <= p < r2.len() && r2[p] == a;
            if p >= i {
                assert(r2[i] <= r2[p]);
            }
            assert(r1[p] == r2[p]);
        } else {
            assert(r2[i] < a);
        }
    } else if b < a {
        assert(dom.contains(b));
        if r1.contains(b) {
            let p = choose|p: int| 0 <= p < r1.len() && r1[p] == b;
            if p >= i {
                assert(r1[i] <= r1[p]);
            }
            assert(r1[p] == r2[p]);
        } else {
            assert(r1[i] < b);
        }
    }
}

/// Two lists of the first keys of a set are the same list.
pub proof fn lemma_first_keys_unique(r1: Seq<AccountId>, r2: Seq<AccountId>, dom: Set<AccountId>, n: nat)
    requires
        is_first_keys(r1, dom, n),
        is_first_keys(r2, dom, n),
    ensures
        r1 == r2,
{
    if r1.len() > 0 && r2.len() > 0 {
        let m = if r1.len() <= r2.len() { r1.len() } else { r2.len() };
        lemma_first_keys_agree(r1, r2, dom, n, m - 1);
    }
    if r1.len() < r2.len() {
        let k = r2[r1.len() as int];
        assert(dom.contains(k));
        if r1.contains(k) {
            let q = choose|q: int| 0 <= q < r1.len() && r1[q] == k;
            assert(r1[q] == r2[q]);
        }
    } else if r2.len() < r1.len() {
        let k = r1[r2.len() as int];
        assert(dom.contains(k));
        if r2.contains(k) {
            let q = choose|q: int| 0 <= q < r2.len() && r2[q] == k;
            assert(r1[q] == r2[q]);
        }
    }
    assert(r1 =~= r2);
}

impl<C: Currency> Pallet<C> {
    /// The `required_moderators` smallest accounts of `btree`, in increasing
    /// order, or all of them when it has fewer.
    pub fn do_draft_moderators_from_btree(btree: BTreeMap<AccountId, u32>, required_moderators: u32) -> (r: Result<
        Vec<AccountId>,
        DispatchError,
    >)
        ensures
            r is Ok,
            r.unwrap()@ == first_keys(btree@.dom(), required_moderators as nat),
    {
        let keys = sorted_keys(&btree);
        let mut drafted: Vec<AccountId> = Vec::new();
        let mut count: u32 = 0;
        let mut i: usize = 0;
        while i < keys.len() && count < required_moderators
            invariant
                i <= keys.len(),
                count == i,
                count <= required_moderators,
                drafted@ == keys@.take(i as int),
            decreases keys.len() - i,
        {
            drafted.push(keys[i]);
            assert(keys@.take(i + 1) == keys@.take(i as int).push(keys@[i as int]));
            i = i + 1;
            count = count + 1;
        }
        proof {
            let dom = btree@.dom();
            let n = required_moderators as nat;
            let d = drafted@;
            assert forall|j: int| 0 <= j < d.len() implies dom.contains(#[trigger] d[j]) by {
                assert(keys@.contains(keys@[j]));
                assert(keys@.to_set().contains(keys@[j]));
            }
            assert forall|k: AccountId| #[trigger] dom.contains(k) && !d.contains(k) implies {
                &&& d.len() == n
                &&& forall|j: int| 0 <= j < d.len() ==> d[j] < k
            } by {
                assert(keys@.to_set().contains(k));
                let p = choose|p: int| 0 <= p < keys@.len() && keys@[p] == k;
                if p < i {
                    assert(d[p] == k);
                }
            }
            assert(is_first_keys(d, dom, n));
            let c = first_keys(dom, n);
            assert(is_first_keys(c, dom, n));
            lemma_first_keys_unique(c, d, dom, n);
        }
        Ok(drafted)
    }
}

} // verus!
