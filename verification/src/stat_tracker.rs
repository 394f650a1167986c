//! Reputation of wallets.
use vstd::prelude::*;

use std::collections::BTreeMap;

use crate::system::{AccountId, DispatchError};

verus! {

/// What is tracked about a wallet.
#[derive(Clone, Copy, Debug, PartialEq, Eq, Structural)]
pub struct Stats {
    pub reputation: u32,
}

#[derive(Clone, Copy, Debug, PartialEq, Eq, Structural)]
pub enum Error {
    WalletAlreadyRegistered,
}

/// The parameters the runtime sets for the module.
#[derive(Clone, Copy, Debug, PartialEq, Eq, Structural)]
pub struct Config {
    /// The reputation every newly registered wallet starts with.
    pub default_reputation: u32,
}

/// Storage of the module: the reputation of each registered wallet.
pub struct Pallet {
    pub config: Config,
    pub wallet_reputation: BTreeMap<AccountId, Stats>,
}

/// Every account of `accounts` mapped to `value`.
pub open spec fn constant_map<V>(accounts: Seq<AccountId>, value: V) -> Map<AccountId, V> {
    Map::new(|a: AccountId| accounts.contains(a), |a: AccountId| value)
}

impl Pallet {
    /// The module at genesis: no wallet registered.
    pub fn new(config: Config) -> (r: Pallet)
        ensures
            r.config == config,
            r.wallet_reputation@ == Map::<AccountId, Stats>::empty(),
    {
        Pallet { config, wallet_reputation: BTreeMap::new() }
    }

    /// The stats of `who`, if registered.
    pub fn wallet_reputation(&self, who: AccountId) -> (r: Option<Stats>)
        ensures
            r == (if self.wallet_reputation@.contains_key(who) {
                Some(self.wallet_reputation@[who])
            } else {
                None
            }),
    {
        match self.wallet_reputation.get(&who) {
            Some(s) => Some(*s),
            None => None,
        }
    }

    /// Registers `who` with the default reputation, replacing any earlier stats.
    pub fn register_new_wallet(&mut self, who: AccountId) -> (r: Result<(), DispatchError>)
        ensures
            r is Ok,
            final(self).config.default_reputation == old(self).config.default_reputation,
            final(self).wallet_reputation@ == old(self).wallet_reputation@.insert(
                who,
                Stats { reputation: old(self).config.default_reputation },
            ),
    {
        let stats = Stats { reputation: self.config.default_reputation };
        self.wallet_reputation.insert(who, stats);
        Ok(())
    }

    /// Registers every account of `moderators` anew and maps each of them to
    /// its reputation, which is then the default one.
    pub fn create_moderator_btree(&mut self, moderators: Vec<AccountId>) -> (r: Result<
        BTreeMap<AccountId, u32>,
        DispatchError,
    >)
        ensures
            r is Ok,
            r.unwrap()@ == constant_map(moderators@, old(self).config.default_reputation),
            final(self).config.default_reputation == old(self).config.default_reputation,
            final(self).wallet_reputation@ == old(self).wallet_reputation@.union_prefer_right(
                constant_map(moderators@, Stats { reputation: old(self).config.default_reputation }),
            ),
    {
        let mut btree: BTreeMap<AccountId, u32> = BTreeMap::new();
        let ghost start = self.wallet_reputation@;
        let mut i: usize = 0;
        while i < moderators.len()
            invariant
                i <= moderators.len(),
                self.config.default_reputation == old(self).config.default_reputation,
                start == old(self).wallet_reputation@,
                btree@ == constant_map(moderators@.take(i as int), self.config.default_reputation),
                self.wallet_reputation@ == start.union_prefer_right(
                    constant_map(moderators@.take(i as int), Stats { reputation: self.config.default_reputation }),
                ),
            decreases moderators.len() - i,
        {
            let moderator_id = moderators[i];
            let _ = self.register_new_wallet(moderator_id);
            let total_reputation = match self.wallet_reputation.get(&moderator_id) {
                Some(s) => s.reputation,
                None => self.config.default_reputation,
            };
            btree.insert(moderator_id, total_reputation);
            proof {
                let pre = moderators@.take(i as int);
                let post = moderators@.take(i + 1);
                assert(post == pre.push(moderator_id));
                assert forall|a: AccountId| post.contains(a) <==> (pre.contains(a) || a == moderator_id) by {
                    if post.contains(a) {
                        let k = choose|k: int| 0 <= k < post.len() && post[k] == a;
                        if k < pre.len() {
                            assert(pre[k] == a);
                        }
                    }
                    if pre.contains(a) {
                        let k = choose|k: int| 0 <= k < pre.len() && pre[k] == a;
                        assert(post[k] == a);
                    }
                    if a == moderator_id {
                        assert(post[i as int] == a);
                    }
                }
                assert(btree@ =~= constant_map(post, self.config.default_reputation));
                assert(self.wallet_reputation@ =~= start.union_prefer_right(
                    constant_map(post, Stats { reputation: self.config.default_reputation }),
                ));
            }
            i = i + 1;
        }
        assert(moderators@.take(moderators.len() as int) == moderators@);
        Ok(btree)
    }
}

} // verus!
