//! Registration, drafting, stakes and report assignments of moderators.
use vstd::prelude::*;

use crate::currency::Currency;
use crate::moderation::spec::{
    assign_fits, assign_reports, claim_reward_step, create_moderator_state, credit_voters,
    deallocate_step, debit_voters, distribute_step, lemma_assign_stops, lemma_credit_stops,
    lemma_debit_stops, moderator_btree_step, moderator_fee, other_content, per_moderator,
    slash_step, suspend_step, with_assigned, with_collateral,
};
use crate::moderation::types::{
    fail, moderators_view, ContentId, Error, ModerationView, Moderator, Pallet,
};
use crate::moderation::keys::sorted_keys;
use crate::stat_tracker::{constant_map, Stats};
use crate::system::{AccountId, Balance, DispatchError};

use std::collections::BTreeMap;


verus! {

/// The encoded size hint that `parity_scale_codec::Encode::size_hint` gives
/// for a list of accounts: a four-byte length prefix plus the in-memory size
/// of the accounts, eight bytes each.
#[verifier::external_body]
fn encoded_size_hint(accounts: &Vec<AccountId>) -> (r: usize)
    ensures
        r == 4 + 8 * accounts@.len(),
{
    parity_scale_codec::Encode::size_hint(accounts)
}

impl<C: Currency> Pallet<C> {
    /// Fails when `who` is already a moderator.
    pub fn do_check_if_already_moderator(&self, who: AccountId) -> (r: Result<(), DispatchError>)
        ensures
            r == (if self@.moderators.contains_key(who) {
                fail::<()>(Error::AlreadyRegisteredAsModerator)
            } else {
                Ok(())
            }),
    {
        if self.moderators.contains_key(&who) {
            return Err(DispatchError::Moderation(Error::AlreadyRegisteredAsModerator));
        }
        Ok(())
    }

    /// Registers `who` as moderator with the minimum stake and no report, and
    /// (re-)registers its wallet with the default reputation.
    pub fn do_create_moderator(&mut self, who: AccountId) -> (r: Result<(), DispatchError>)
        ensures
            r is Ok,
            final(self).same_setup(*old(self)),
            final(self)@ == create_moderator_state(
                old(self)@,
                old(self).config,
                old(self).stat_tracker.config.default_reputation,
                who,
            ),
    {
        let moderator = Moderator {
            collateral_tokens: self.config.minimum_tokens_for_moderation,
            assigned_reports: Vec::new(),
        };
        let ghost moderator_view = moderator@;
        self.moderators.insert(who, moderator);
        assert(moderators_view(self.moderators@) =~= moderators_view(old(self).moderators@).insert(
            who,
            moderator_view,
        ));
        let _ = self.stat_tracker.register_new_wallet(who);
        Ok(())
    }

    /// Registers every moderator anew as wallet and maps each to its (default)
    /// reputation; fails when the encoded size hint of the list of moderator
    /// accounts is below the number of tier-one moderators.
    pub fn do_get_moderator_btree(&mut self) -> (r: Result<BTreeMap<AccountId, u32>, DispatchError>)
        ensures
            final(self).same_setup(*old(self)),
            final(self)@ == moderator_btree_step(old(self)@, old(self).config, old(self).stat_tracker.config.default_reputation).0,
            match r {
                Ok(b) => moderator_btree_step(old(self)@, old(self).config, old(self).stat_tracker.config.default_reputation).1
                    == Ok::<Map<AccountId, u32>, DispatchError>(b@),
                Err(e) => moderator_btree_step(old(self)@, old(self).config, old(self).stat_tracker.config.default_reputation).1
                    == Err::<Map<AccountId, u32>, DispatchError>(e),
            },
    {
        let moderator_data = sorted_keys(&self.moderators);
        assert(self@.moderators.dom() =~= self.moderators@.dom());
        if encoded_size_hint(&moderator_data) < self.config.total_tier_one_moderators as usize {
            return Err(DispatchError::Moderation(Error::NotEnoughModeratorsRegistered));
        }
        let ghost ids = moderator_data@;
        let ghost rep = self.stat_tracker.config.default_reputation;
        let result = self.stat_tracker.create_moderator_btree(moderator_data);
        let btree = match result {
            Ok(b) => b,
            Err(e) => { return Err(e); },
        };
        proof {
            assert forall|a: AccountId| ids.contains(a) <==> old(self)@.moderators.contains_key(a) by {
                assert(ids.to_set().contains(a) <==> ids.contains(a));
            }
            assert(btree@ =~= per_moderator(old(self)@, rep));
            assert(constant_map(ids, Stats { reputation: rep }) =~= per_moderator(old(self)@, Stats { reputation: rep }));
        }
        Ok(btree)
    }

    /// Appends `content_id` to the reports of each of `moderators` in turn;
    /// fails at the first account that is not a moderator, keeping the
    /// assignments made before it.
    pub fn do_assign_report_to_moderators(&mut self, content_id: ContentId, moderators: Vec<AccountId>) -> (r: Result<
        (),
        DispatchError,
    >)
        requires
            assign_fits(
                old(self)@.moderators,
                moderators@,
                content_id,
                old(self).config.max_reports_by_moderator,
            ),
        ensures
            final(self).same_setup(*old(self)),
            final(self)@ == (ModerationView {
                moderators: assign_reports(old(self)@.moderators, moderators@, content_id).0,
                ..old(self)@
            }),
            r == assign_reports(old(self)@.moderators, moderators@, content_id).1,
    {
        let ghost start = self@;
        let mut i: usize = 0;
        while i < moderators.len()
            invariant
                i <= moderators.len(),
                self.same_setup(*old(self)),
                start == old(self)@,
                assign_fits(start.moderators, moderators@, content_id, self.config.max_reports_by_moderator),
                assign_reports(start.moderators, moderators@.take(i as int), content_id).1 is Ok,
                self@ == (ModerationView {
                    moderators: assign_reports(start.moderators, moderators@.take(i as int), content_id).0,
                    ..start
                }),
            decreases moderators.len() - i,
        {
            let moderator_id = moderators[i];
            let ghost before = self@.moderators;
            let ghost before_raw = self.moderators@;
            assert(moderators@.take(i + 1).drop_last() == moderators@.take(i as int));
            assert(moderators@.take(i + 1).last() == moderator_id);
            match self.moderators.remove(&moderator_id) {
                None => {
                    proof {
                        assert(self.moderators@ =~= before_raw);
                        lemma_assign_stops(start.moderators, moderators@, content_id, i + 1);
                    }
                    return Err(DispatchError::Moderation(Error::NonexistentModerator));
                },
                Some(mut moderator) => {
                    assert(before.contains_key(moderator_id));
                    let ghost m = assign_reports(start.moderators, moderators@.take(i as int), content_id);
                    assert(m.1 is Ok && m.0.contains_key(moderators@[i as int]));
                    moderator.assigned_reports.push(content_id);
                    let ghost moderator_view = moderator@;
                    self.moderators.insert(moderator_id, moderator);
                    assert(moderators_view(self.moderators@) =~= with_assigned(before, moderator_id, content_id));
                },
            }
            i = i + 1;
        }
        assert(moderators@.take(moderators.len() as int) == moderators@);
        Ok(())
    }

    /// Removes `content_id` from the reports assigned to `moderator_id`.
    pub fn do_deallocate_moderator_from_report(&mut self, moderator_id: AccountId, content_id: ContentId) -> (r: Result<
        (),
        DispatchError,
    >)
        ensures
            final(self).same_setup(*old(self)),
            final(self)@ == deallocate_step(old(self)@, moderator_id, content_id).0,
            r == deallocate_step(old(self)@, moderator_id, content_id).1,
    {
        match self.moderators.remove(&moderator_id) {
            None => {
                assert(self.moderators@ =~= old(self).moderators@);
                Err(DispatchError::Moderation(Error::NonexistentModerator))
            },
            Some(moderator) => {
                let ghost old_reports = moderator.assigned_reports@;
                let mut kept: Vec<ContentId> = Vec::new();
                let mut i: usize = 0;
                while i < moderator.assigned_reports.len()
                    invariant
                        i <= moderator.assigned_reports.len(),
                        old_reports == moderator.assigned_reports@,
                        kept@ == old_reports.take(i as int).filter(other_content(content_id)),
                    decreases moderator.assigned_reports.len() - i,
                {
                    let assigned_id = moderator.assigned_reports[i];
                    proof {
                        assert(old_reports.take(i + 1) == old_reports.take(i as int).push(assigned_id));
                        old_reports.take(i as int).lemma_filter_push(assigned_id, other_content(content_id));
                    }
                    if assigned_id != content_id {
                        kept.push(assigned_id);
                    }
                    i = i + 1;
                }
                assert(old_reports.take(old_reports.len() as int) == old_reports);
                let updated = Moderator { collateral_tokens: moderator.collateral_tokens, assigned_reports: kept };
                let ghost updated_view = updated@;
                self.moderators.insert(moderator_id, updated);
                assert(moderators_view(self.moderators@) =~= moderators_view(old(self).moderators@).insert(
                    moderator_id,
                    updated_view,
                ));
                Ok(())
            },
        }
    }

    /// Fails while `who` still has reports to vote on.
    pub fn do_can_moderator_suspend(&self, who: AccountId) -> (r: Result<(), DispatchError>)
        requires
            self@.moderators.contains_key(who),
        ensures
            r == (if self@.moderators[who].assigned_reports.len() == 0 {
                Ok(())
            } else {
                fail::<()>(Error::ReportsAwaitingVote)
            }),
    {
        let moderator = self.moderators.get(&who).unwrap();
        if moderator.assigned_reports.len() != 0 {
            return Err(DispatchError::Moderation(Error::ReportsAwaitingVote));
        }
        Ok(())
    }

    /// Returns the stake of `who` from the vault and removes `who` from the
    /// moderators.
    pub fn do_suspend_moderation(&mut self, who: AccountId) -> (r: Result<(), DispatchError>)
        requires
            old(self)@.moderators.contains_key(who),
        ensures
            final(self).same_setup(*old(self)),
            final(self)@ == suspend_step::<C>(old(self)@, old(self).config, who).0,
            r == suspend_step::<C>(old(self)@, old(self).config, who).1,
    {
        let collateral = self.moderators.get(&who).unwrap().collateral_tokens;
        self.do_transfer_funds_from_treasury(who, collateral)?;
        let ghost before = self.moderators@;
        self.moderators.remove(&who);
        assert(moderators_view(self.moderators@) =~= moderators_view(before).remove(who));
        Ok(())
    }

    /// Fails unless `who` was drafted for `content_id`.
    pub fn do_can_moderator_vote(&self, who: AccountId, content_id: ContentId) -> (r: Result<(), DispatchError>)
        requires
            self@.moderators.contains_key(who),
        ensures
            r == (if self@.moderators[who].assigned_reports.contains(content_id) {
                Ok(())
            } else {
                fail::<()>(Error::ModeratorNotDraftedForReport)
            }),
    {
        let moderator = self.moderators.get(&who).unwrap();
        assert(self@.moderators[who] == moderator@);
        let mut i: usize = 0;
        while i < moderator.assigned_reports.len()
            invariant
                i <= moderator.assigned_reports.len(),
                self@.moderators[who] == moderator@,
                forall|j: int| 0 <= j < i ==> moderator.assigned_reports@[j] != content_id,
            decreases moderator.assigned_reports.len() - i,
        {
            if moderator.assigned_reports[i] == content_id {
                assert(moderator.assigned_reports@[i as int] == content_id);
                assert(moderator.assigned_reports@.contains(content_id));
                return Ok(());
            }
            i = i + 1;
        }
        assert(!moderator.assigned_reports@.contains(content_id));
        Err(DispatchError::Moderation(Error::ModeratorNotDraftedForReport))
    }

    /// Takes the part of the stake of `moderator_id` above the minimum off
    /// the stake and returns it (nothing is paid out).
    pub fn do_claim_moderation_reward(&mut self, moderator_id: AccountId) -> (r: Result<Balance, DispatchError>)
        ensures
            final(self).same_setup(*old(self)),
            final(self)@ == claim_reward_step(old(self)@, old(self).config, moderator_id).0,
            r == claim_reward_step(old(self)@, old(self).config, moderator_id).1,
    {
        let min_collateral = self.config.minimum_tokens_for_moderation;
        match self.moderators.remove(&moderator_id) {
            None => {
                assert(self.moderators@ =~= old(self).moderators@);
                Err(DispatchError::Moderation(Error::NonexistentModerator))
            },
            Some(mut moderator) => {
                let mod_collateral = moderator.collateral_tokens;
                let mut reward: Balance = 0;
                if mod_collateral > min_collateral {
                    reward = mod_collateral - min_collateral;
                    moderator.collateral_tokens = mod_collateral - reward;
                }
                let ghost moderator_view = moderator@;
                self.moderators.insert(moderator_id, moderator);
                assert(moderators_view(self.moderators@) =~= moderators_view(old(self).moderators@).insert(
                    moderator_id,
                    moderator_view,
                ));
                if mod_collateral <= min_collateral {
                    assert(moderators_view(self.moderators@) =~= moderators_view(old(self).moderators@));
                }
                Ok(reward)
            },
        }
    }

    /// Sets the stake of moderator `who` (known to exist) to `collateral`.
    fn set_collateral(&mut self, who: AccountId, collateral: Balance)
        requires
            old(self)@.moderators.contains_key(who),
        ensures
            final(self).same_setup(*old(self)),
            final(self)@ == (ModerationView {
                moderators: with_collateral(old(self)@.moderators, who, collateral),
                ..old(self)@
            }),
    {
        let mut moderator = self.moderators.remove(&who).unwrap();
        moderator.collateral_tokens = collateral;
        let ghost moderator_view = moderator@;
        self.moderators.insert(who, moderator);
        assert(moderators_view(self.moderators@) =~= with_collateral(old(self)@.moderators, who, collateral));
    }

    /// The stake of moderator `who`, if it is one.
    fn collateral_of(&self, who: AccountId) -> (r: Option<Balance>)
        ensures
            r == (if self@.moderators.contains_key(who) {
                Some(self@.moderators[who].collateral_tokens)
            } else {
                None
            }),
    {
        match self.moderators.get(&who) {
            Some(m) => Some(m.collateral_tokens),
            None => None,
        }
    }

    /// Adds `reward` to the stake of each of `majority_voters` in turn; fails
    /// at the first account that is not a moderator or whose stake would
    /// overflow, keeping the rewards paid before it.
    pub fn do_distribute_rewards_to_majority_voters(&mut self, majority_voters: Vec<AccountId>, reward: Balance) -> (r: Result<
        (),
        DispatchError,
    >)
        ensures
            final(self).same_setup(*old(self)),
            final(self)@ == distribute_step(old(self)@, majority_voters@, reward).0,
            r == distribute_step(old(self)@, majority_voters@, reward).1,
    {
        let ghost start = self@;
        let mut i: usize = 0;
        while i < majority_voters.len()
            invariant
                i <= majority_voters.len(),
                self.same_setup(*old(self)),
                start == old(self)@,
                credit_voters(start.moderators, majority_voters@.take(i as int), reward).1 is Ok,
                self@ == (ModerationView {
                    moderators: credit_voters(start.moderators, majority_voters@.take(i as int), reward).0,
                    ..start
                }),
            decreases majority_voters.len() - i,
        {
            let moderator_id = majority_voters[i];
            assert(majority_voters@.take(i + 1).drop_last() == majority_voters@.take(i as int));
            let collateral = match self.collateral_of(moderator_id) {
                Some(c) => c,
                None => {
                    proof { lemma_credit_stops(start.moderators, majority_voters@, reward, i + 1); }
                    return Err(DispatchError::Moderation(Error::NonexistentModerator));
                },
            };
            let new_collateral = match collateral.checked_add(reward) {
                Some(c) => c,
                None => {
                    proof { lemma_credit_stops(start.moderators, majority_voters@, reward, i + 1); }
                    return Err(DispatchError::Moderation(Error::Overflow));
                },
            };
            self.set_collateral(moderator_id, new_collateral);
            i = i + 1;
        }
        assert(majority_voters@.take(majority_voters.len() as int) == majority_voters@);
        Ok(())
    }

    /// Takes the moderator fee from the stake of each of `minority_voters` in
    /// turn; fails at the first account that is not a moderator or whose
    /// stake is below the fee, keeping the slashes made before it.
    pub fn do_slash_tokens_from_minority_voters(&mut self, minority_voters: Vec<AccountId>) -> (r: Result<
        (),
        DispatchError,
    >)
        ensures
            final(self).same_setup(*old(self)),
            final(self)@ == slash_step(old(self)@, old(self).config, minority_voters@).0,
            r == slash_step(old(self)@, old(self).config, minority_voters@).1,
    {
        let fee = self.do_calculate_moderator_fee()?;
        let ghost start = self@;
        let mut i: usize = 0;
        while i < minority_voters.len()
            invariant
                i <= minority_voters.len(),
                self.same_setup(*old(self)),
                start == old(self)@,
                moderator_fee(self.config) == Some(fee),
                debit_voters(start.moderators, minority_voters@.take(i as int), fee).1 is Ok,
                self@ == (ModerationView {
                    moderators: debit_voters(start.moderators, minority_voters@.take(i as int), fee).0,
                    ..start
                }),
            decreases minority_voters.len() - i,
        {
            let moderator_id = minority_voters[i];
            assert(minority_voters@.take(i + 1).drop_last() == minority_voters@.take(i as int));
            let collateral = match self.collateral_of(moderator_id) {
                Some(c) => c,
                None => {
                    proof { lemma_debit_stops(start.moderators, minority_voters@, fee, i + 1); }
                    return Err(DispatchError::Moderation(Error::NonexistentModerator));
                },
            };
            let new_collateral = match collateral.checked_sub(fee) {
                Some(c) => c,
                None => {
                    proof { lemma_debit_stops(start.moderators, minority_voters@, fee, i + 1); }
                    return Err(DispatchError::Moderation(Error::Overflow));
                },
            };
            self.set_collateral(moderator_id, new_collateral);
            i = i + 1;
        }
        assert(minority_voters@.take(minority_voters.len() as int) == minority_voters@);
        Ok(())
    }
}

} // verus!
