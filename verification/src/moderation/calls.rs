//! The calls accounts dispatch to the module. A call that fails leaves
//! storage, balances and events as they were.
use vstd::prelude::*;

use std::collections::BTreeMap;

use crate::currency::Currency;
use crate::moderation::spec::{
    appeal_decision_fits, appeal_decision_spec, apply_for_moderation_spec, claim_reward_step, committed, create_report_fits,
    consensus_decision_fits, consensus_decision_spec, create_report_spec, submit_vote_fits,
    submit_vote_spec, suspend_moderation_spec,
};
use crate::moderation::types::{
    moderators_view, reports_view, verdicts_view, ContentId, ContentType, Event,
    InfringimentType, ModerationView, Moderator, Pallet, Report, ReportOutcome, ReportStatus, Tiers,
    VoteChoice, Error,
};
use crate::stat_tracker::Stats;
use crate::system::{ensure_signed, AccountId, DispatchError, RawOrigin};

verus! {

/// A copy of the storage and balances of the module, to go back to when a
/// call fails.
struct Checkpoint<C: Currency> {
    reports: BTreeMap<ContentId, Report>,
    report_verdicts: BTreeMap<(ContentId, u8), ReportOutcome>,
    moderators: BTreeMap<AccountId, Moderator>,
    wallet_reputation: BTreeMap<AccountId, Stats>,
    currency: C,
}

impl<C: Currency> Checkpoint<C> {
    /// The checkpoint holds the storage and balances of `v`.
    spec fn holds(self, v: ModerationView) -> bool {
        &&& reports_view(self.reports@) == v.reports
        &&& verdicts_view(self.report_verdicts@) == v.verdicts
        &&& moderators_view(self.moderators@) == v.moderators
        &&& self.wallet_reputation@ == v.reputation
        &&& self.currency.ledger() == v.ledger
    }
}

impl<C: Currency> Pallet<C> {
    fn checkpoint(&self) -> (cp: Checkpoint<C>)
        ensures
            cp.holds(self@),
    {
        Checkpoint {
            reports: self.reports.clone(),
            report_verdicts: self.report_verdicts.clone(),
            moderators: self.moderators.clone(),
            wallet_reputation: self.stat_tracker.wallet_reputation.clone(),
            currency: self.currency.checkpoint(),
        }
    }

    /// Puts back the storage and balances of `cp`; the events stay.
    fn rollback(&mut self, cp: Checkpoint<C>)
        ensures
            final(self).same_setup(*old(self)),
            cp.holds(final(self)@),
            final(self)@.events == old(self)@.events,
    {
        self.reports = cp.reports;
        self.report_verdicts = cp.report_verdicts;
        self.moderators = cp.moderators;
        self.stat_tracker.wallet_reputation = cp.wallet_reputation;
        self.currency = cp.currency;
    }

    /// Registers the signer as moderator: it must not be one already, and its
    /// stake (the minimum tokens for moderation) moves into the vault.
    pub fn apply_for_moderation(&mut self, origin: RawOrigin) -> (r: Result<(), DispatchError>)
        ensures
            final(self).same_setup(*old(self)),
            match origin {
                RawOrigin::Signed(who) => {
                    let (s1, r1) = apply_for_moderation_spec::<C>(
                        old(self)@,
                        old(self).config,
                        old(self).stat_tracker.config.default_reputation,
                        who,
                    );
                    &&& r == r1
                    &&& final(self)@ == committed(old(self)@, s1, r1, Event::ModeratorRegistered(who))
                },
                _ => r == Err::<(), DispatchError>(DispatchError::BadOrigin) && final(self)@ == old(self)@,
            },
    {
        let who = ensure_signed(origin)?;
        let cp = self.checkpoint();
        let result = self.apply_for_moderation_body(who);
        match result {
            Ok(()) => {
                self.events.push(Event::ModeratorRegistered(who));
                Ok(())
            },
            Err(e) => {
                self.rollback(cp);
                Err(e)
            },
        }
    }

    fn apply_for_moderation_body(&mut self, who: AccountId) -> (r: Result<(), DispatchError>)
        ensures
            final(self).same_setup(*old(self)),
            (final(self)@, r) == apply_for_moderation_spec::<C>(
                old(self)@,
                old(self).config,
                old(self).stat_tracker.config.default_reputation,
                who,
            ),
    {
        self.do_check_if_already_moderator(who)?;
        let stake = self.config.minimum_tokens_for_moderation;
        self.do_transfer_funds_to_treasury(who, stake)?;
        self.do_create_moderator(who)?;
        Ok(())
    }

    /// The signer stops moderating: it must have no report to vote on, and
    /// its stake returns from the vault.
    pub fn suspend_moderation_activity(&mut self, origin: RawOrigin) -> (r: Result<(), DispatchError>)
        requires
            origin matches RawOrigin::Signed(who) ==> old(self)@.moderators.contains_key(who),
        ensures
            final(self).same_setup(*old(self)),
            match origin {
                RawOrigin::Signed(who) => {
                    let (s1, r1) = suspend_moderation_spec::<C>(old(self)@, old(self).config, who);
                    &&& r == r1
                    &&& final(self)@ == committed(old(self)@, s1, r1, Event::ModerationActivitySuspended(who))
                },
                _ => r == Err::<(), DispatchError>(DispatchError::BadOrigin) && final(self)@ == old(self)@,
            },
    {
        let who = ensure_signed(origin)?;
        let cp = self.checkpoint();
        let result = self.suspend_moderation_body(who);
        match result {
            Ok(()) => {
                self.events.push(Event::ModerationActivitySuspended(who));
                Ok(())
            },
            Err(e) => {
                self.rollback(cp);
                Err(e)
            },
        }
    }

    fn suspend_moderation_body(&mut self, who: AccountId) -> (r: Result<(), DispatchError>)
        requires
            old(self)@.moderators.contains_key(who),
        ensures
            final(self).same_setup(*old(self)),
            (final(self)@, r) == suspend_moderation_spec::<C>(old(self)@, old(self).config, who),
    {
        self.do_can_moderator_suspend(who)?;
        self.do_suspend_moderation(who)?;
        Ok(())
    }

    /// Takes the part of the signer's stake above the minimum off its stake
    /// and reports it in the event (no funds move).
    pub fn claim_moderation_rewards(&mut self, origin: RawOrigin) -> (r: Result<(), DispatchError>)
        ensures
            final(self).same_setup(*old(self)),
            match origin {
                RawOrigin::Signed(who) => {
                    let (s1, r1) = claim_reward_step(old(self)@, old(self).config, who);
                    &&& r == (match r1 {
                        Ok(_) => Ok::<(), DispatchError>(()),
                        Err(e) => Err(e),
                    })
                    &&& final(self)@ == committed(
                        old(self)@,
                        s1,
                        r1,
                        Event::ModerationRewardsClaimed(who, r1.unwrap()),
                    )
                },
                _ => r == Err::<(), DispatchError>(DispatchError::BadOrigin) && final(self)@ == old(self)@,
            },
    {
        let who = ensure_signed(origin)?;
        let cp = self.checkpoint();
        let result = self.do_claim_moderation_reward(who);
        match result {
            Ok(reward) => {
                self.events.push(Event::ModerationRewardsClaimed(who, reward));
                Ok(())
            },
            Err(e) => {
                self.rollback(cp);
                Err(e)
            },
        }
    }
}

impl<C: Currency> Pallet<C> {
    /// The signer reports `content_id` of `reportee_id`: it pays the stake of
    /// the tier-one moderators into the vault, a tier-one verdict is opened
    /// and the moderators with the smallest accounts are drafted for it.
    pub fn create_report(
        &mut self,
        origin: RawOrigin,
        content_id: ContentId,
        reportee_id: AccountId,
        content_type: ContentType,
        infringiment: InfringimentType,
        justification: Vec<u8>,
    ) -> (r: Result<(), DispatchError>)
        requires
            justification@.len() <= old(self).config.justification_limit,
            origin matches RawOrigin::Signed(who) ==> create_report_fits::<C>(
                old(self)@,
                old(self).config,
                old(self).stat_tracker.config.default_reputation,
                who,
                content_id,
            ),
        ensures
            final(self).same_setup(*old(self)),
            match origin {
                RawOrigin::Signed(who) => {
                    let (s1, r1) = create_report_spec::<C>(
                        old(self)@,
                        old(self).config,
                        old(self).stat_tracker.config.default_reputation,
                        who,
                        content_id,
                        reportee_id,
                        content_type,
                        infringiment,
                        justification@,
                    );
                    &&& r == r1
                    &&& final(self)@ == committed(
                        old(self)@,
                        s1,
                        r1,
                        Event::ReportCreated(content_id, who, content_type, infringiment),
                    )
                },
                _ => r == Err::<(), DispatchError>(DispatchError::BadOrigin) && final(self)@ == old(self)@,
            },
    {
        let who = ensure_signed(origin)?;
        let cp = self.checkpoint();
        let result = self.create_report_body(who, content_id, reportee_id, content_type, infringiment, justification);
        match result {
            Ok(()) => {
                self.events.push(Event::ReportCreated(content_id, who, content_type, infringiment));
                Ok(())
            },
            Err(e) => {
                self.rollback(cp);
                Err(e)
            },
        }
    }

    fn create_report_body(
        &mut self,
        who: AccountId,
        content_id: ContentId,
        reportee_id: AccountId,
        content_type: ContentType,
        infringiment: InfringimentType,
        justification: Vec<u8>,
    ) -> (r: Result<(), DispatchError>)
        requires
            justification@.len() <= old(self).config.justification_limit,
            create_report_fits::<C>(
                old(self)@,
                old(self).config,
                old(self).stat_tracker.config.default_reputation,
                who,
                content_id,
            ),
        ensures
            final(self).same_setup(*old(self)),
            (final(self)@, r) == create_report_spec::<C>(
                old(self)@,
                old(self).config,
                old(self).stat_tracker.config.default_reputation,
                who,
                content_id,
                reportee_id,
                content_type,
                infringiment,
                justification@,
            ),
    {
        self.do_validate_report_data(content_id, &justification)?;
        let total = self.config.total_tier_one_moderators;
        let reward_pool = self.do_calculate_report_pool(total)?;
        self.do_transfer_funds_to_treasury(who, reward_pool.0)?;
        let moderator_btree = self.do_get_moderator_btree()?;
        assert(moderator_btree@.dom() =~= self@.moderators.dom());
        assert(self@.moderators == old(self)@.moderators);
        let drafted_moderators = Self::do_draft_moderators_from_btree(moderator_btree, total)?;
        self.do_create_report(who, content_id, reportee_id, content_type, infringiment, justification)?;
        self.do_create_report_verdict(content_id, Tiers::TierOne, reward_pool.1)?;
        self.do_assign_report_to_moderators(content_id, drafted_moderators)?;
        Ok(())
    }
}

impl<C: Currency> Pallet<C> {
    /// A drafted moderator votes on `content_id` in its current tier.
    pub fn submit_vote(&mut self, origin: RawOrigin, content_id: ContentId, vote: VoteChoice) -> (r: Result<
        (),
        DispatchError,
    >)
        requires
            origin matches RawOrigin::Signed(who) ==> submit_vote_fits(
                old(self)@,
                old(self).config,
                who,
                content_id,
                vote,
            ),
        ensures
            final(self).same_setup(*old(self)),
            match origin {
                RawOrigin::Signed(who) => {
                    let (s1, r1) = submit_vote_spec(old(self)@, who, content_id, vote);
                    &&& r == r1
                    &&& final(self)@ == committed(old(self)@, s1, r1, Event::VoteSubmitted)
                },
                _ => r == Err::<(), DispatchError>(DispatchError::BadOrigin) && final(self)@ == old(self)@,
            },
    {
        let who = ensure_signed(origin)?;
        let cp = self.checkpoint();
        let result = self.submit_vote_body(who, content_id, vote);
        match result {
            Ok(()) => {
                self.events.push(Event::VoteSubmitted);
                Ok(())
            },
            Err(e) => {
                self.rollback(cp);
                Err(e)
            },
        }
    }

    fn submit_vote_body(&mut self, who: AccountId, content_id: ContentId, vote: VoteChoice) -> (r: Result<
        (),
        DispatchError,
    >)
        requires
            submit_vote_fits(old(self)@, old(self).config, who, content_id, vote),
        ensures
            final(self).same_setup(*old(self)),
            (final(self)@, r) == submit_vote_spec(old(self)@, who, content_id, vote),
    {
        self.do_can_moderator_vote(who, content_id)?;
        let tier_data = self.do_get_current_report_tier_data(content_id)?;
        self.do_create_vote(content_id, tier_data.0, who, vote)?;
        self.do_deallocate_moderator_from_report(who, content_id)?;
        if self.do_are_all_votes_submitted(content_id, tier_data.0)? == true {
            let consensus = self.do_calculate_vote_consensus(content_id, tier_data.0)?;
            self.do_update_report_status(content_id, consensus)?;
        }
        Ok(())
    }
}

impl<C: Currency> Pallet<C> {
    /// A party to the report on `content_id` answers the outcome of the vote.
    /// With `decision == false` the party appeals and pays a new stake into
    /// the vault; with `decision == true` the party agrees, every tier is
    /// settled and the report is closed.
    pub fn submit_report_consensus_decision(&mut self, origin: RawOrigin, content_id: ContentId, decision: bool) -> (r: Result<
        (),
        DispatchError,
    >)
        requires
            origin matches RawOrigin::Signed(who) ==> consensus_decision_fits::<C>(
                old(self)@,
                old(self).config,
                who,
                content_id,
                decision,
            ),
        ensures
            final(self).same_setup(*old(self)),
            match origin {
                RawOrigin::Signed(who) => {
                    let (s1, r1) = consensus_decision_spec::<C>(old(self)@, old(self).config, who, content_id, decision);
                    &&& r == (match r1 {
                        Ok(_) => Ok::<(), DispatchError>(()),
                        Err(e) => Err(e),
                    })
                    &&& final(self)@ == committed(old(self)@, s1, r1, r1->Ok_0)
                },
                _ => r == Err::<(), DispatchError>(DispatchError::BadOrigin) && final(self)@ == old(self)@,
            },
    {
        let who = ensure_signed(origin)?;
        let cp = self.checkpoint();
        let result = self.consensus_decision_body(who, content_id, decision);
        match result {
            Ok(event) => {
                self.events.push(event);
                Ok(())
            },
            Err(e) => {
                self.rollback(cp);
                Err(e)
            },
        }
    }

    fn consensus_decision_body(&mut self, who: AccountId, content_id: ContentId, decision: bool) -> (r: Result<
        Event,
        DispatchError,
    >)
        requires
            consensus_decision_fits::<C>(old(self)@, old(self).config, who, content_id, decision),
        ensures
            final(self).same_setup(*old(self)),
            final(self)@.events == old(self)@.events,
            (final(self)@, r) == consensus_decision_spec::<C>(old(self)@, old(self).config, who, content_id, decision),
    {
        let consensus = self.do_check_if_report_verdict_is_acceptable(content_id)?;
        let is_reporter = self.do_check_if_reporter_or_reportee(who, content_id)?;
        self.do_can_user_accept_verdict(is_reporter, content_id)?;
        let tier_data = self.do_get_current_report_tier_data(content_id)?;
        let report_status: ReportStatus;
        let event: Event;
        if decision == false {
            if !tier_data.2 {
                return Err(DispatchError::Moderation(Error::ReportAppealLimitReached));
            }
            let total = self.config.total_tier_one_moderators;
            let reward_pool = self.do_calculate_report_pool(total)?;
            self.do_transfer_funds_to_treasury(who, reward_pool.0)?;
            report_status = Self::do_get_report_status_on_appeal(is_reporter)?;
            event = Event::ReportAppealed(content_id);
        } else {
            let reporter_id = self.do_get_reporter(content_id)?;
            let reportee_id = self.do_get_reportee(content_id)?;
            report_status = Self::do_get_report_status_on_accept(is_reporter)?;
            if !is_reporter {
                let reportee_slash = self.do_convert_collateral_to_balance()?;
                self.do_grab_reportee_collateral(content_id, reportee_slash)?;
            }
            self.settle_all_tiers(content_id, &tier_data.3, consensus, is_reporter, reporter_id, reportee_id, None)?;
            event = Event::ReportClosed(content_id, report_status);
        }
        self.do_update_report_status(content_id, report_status)?;
        Ok(event)
    }
}

impl<C: Currency> Pallet<C> {
    /// The reporter or the reportee of `content_id` decides on the other
    /// side's appeal: `decision == false` refuses it, settling every tier,
    /// and `decision == true` accepts it, sending the report to the next
    /// tier.
    pub fn submit_report_appeal_decision(&mut self, origin: RawOrigin, content_id: ContentId, decision: bool) -> (r: Result<
        (),
        DispatchError,
    >)
        requires
            origin matches RawOrigin::Signed(who) ==> appeal_decision_fits::<C>(
                old(self)@,
                old(self).config,
                old(self).stat_tracker.config.default_reputation,
                who,
                content_id,
                decision,
            ),
        ensures
            final(self).same_setup(*old(self)),
            match origin {
                RawOrigin::Signed(who) => {
                    let (s1, r1) = appeal_decision_spec::<C>(
                        old(self)@,
                        old(self).config,
                        old(self).stat_tracker.config.default_reputation,
                        who,
                        content_id,
                        decision,
                    );
                    &&& r == (match r1 {
                        Ok(_) => Ok::<(), DispatchError>(()),
                        Err(e) => Err(e),
                    })
                    &&& final(self)@ == committed(old(self)@, s1, r1, r1->Ok_0)
                },
                _ => r == Err::<(), DispatchError>(DispatchError::BadOrigin) && final(self)@ == old(self)@,
            },
    {
        let who = ensure_signed(origin)?;
        let cp = self.checkpoint();
        let result = self.appeal_decision_body(who, content_id, decision);
        match result {
            Ok(event) => {
                self.events.push(event);
                Ok(())
            },
            Err(e) => {
                self.rollback(cp);
                Err(e)
            },
        }
    }

    fn appeal_decision_body(&mut self, who: AccountId, content_id: ContentId, decision: bool) -> (r: Result<
        Event,
        DispatchError,
    >)
        requires
            appeal_decision_fits::<C>(
                old(self)@,
                old(self).config,
                old(self).stat_tracker.config.default_reputation,
                who,
                content_id,
                decision,
            ),
        ensures
            final(self).same_setup(*old(self)),
            final(self)@.events == old(self)@.events,
            (final(self)@, r) == appeal_decision_spec::<C>(
                old(self)@,
                old(self).config,
                old(self).stat_tracker.config.default_reputation,
                who,
                content_id,
                decision,
            ),
    {
        let consensus = self.do_check_if_report_appeal_is_acceptable(content_id)?;
        let is_reporter = self.do_check_if_reporter_or_reportee(who, content_id)?;
        self.do_can_user_accept_appeal(is_reporter, content_id)?;
        let tier_data = self.do_get_current_report_tier_data(content_id)?;
        let total = self.config.total_tier_one_moderators;
        if decision == false {
            let reporter_id = self.do_get_reporter(content_id)?;
            let reportee_id = self.do_get_reportee(content_id)?;
            if !is_reporter {
                let reportee_slash = self.do_convert_collateral_to_balance()?;
                self.do_grab_reportee_collateral(content_id, reportee_slash)?;
            }
            let final_status = if is_reporter {
                ReportStatus::Refused
            } else {
                ReportStatus::Accepted
            };
            self.settle_all_tiers(
                content_id,
                &tier_data.3,
                consensus,
                is_reporter,
                reporter_id,
                reportee_id,
                Some(final_status),
            )?;
            let appeal_fee = self.do_calculate_report_pool(total)?.0;
            if is_reporter {
                self.do_transfer_funds_from_treasury(reportee_id, appeal_fee)?;
            } else {
                self.do_transfer_funds_from_treasury(reporter_id, appeal_fee)?;
            }
            Ok(Event::ReportAppealRefused(content_id))
        } else {
            let appeal_fee = self.do_calculate_report_pool(total)?.0;
            if is_reporter {
                let reporter_id = self.do_get_reporter(content_id)?;
                self.do_transfer_funds_to_treasury(reporter_id, appeal_fee)?;
            } else {
                let reportee_id = self.do_get_reportee(content_id)?;
                self.do_transfer_funds_to_treasury(reportee_id, appeal_fee)?;
            }
            let moderator_btree = self.do_get_moderator_btree()?;
            assert(moderator_btree@.dom() =~= self@.moderators.dom());
            assert(self@.moderators == old(self)@.moderators);
            let drafted_moderators = Self::do_draft_moderators_from_btree(moderator_btree, total)?;
            let reward_pool = self.do_calculate_report_pool(total)?;
            self.do_create_report_verdict(content_id, tier_data.1, reward_pool.1)?;
            self.do_assign_report_to_moderators(content_id, drafted_moderators)?;
            self.do_update_report_status(content_id, ReportStatus::InResolution)?;
            Ok(Event::ReportAppealAccepted(content_id))
        }
    }
}

} // verus!
