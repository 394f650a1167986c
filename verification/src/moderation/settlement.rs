//! Settling the tiers of a decided report.
use vstd::prelude::*;

use crate::currency::Currency;
use crate::moderation::spec::{lemma_settle_stops, settle_fits, settle_tier, settle_tiers};
use crate::moderation::types::{ContentId, Pallet, ReportStatus, Tiers};
use crate::system::{AccountId, DispatchError};

verus! {

impl<C: Currency> Pallet<C> {
    /// Settles one tier of the report on `content_id` (see `settle_tier`).
    fn settle_one_tier(
        &mut self,
        content_id: ContentId,
        tier: Tiers,
        consensus: ReportStatus,
        is_reporter: bool,
        reporter_id: AccountId,
        reportee_id: AccountId,
        final_status: Option<ReportStatus>,
    ) -> (r: Result<(), DispatchError>)
        requires
            old(self)@.verdicts.contains_key(crate::moderation::types::verdict_key(content_id, tier)),
        ensures
            final(self).same_setup(*old(self)),
            (final(self)@, r) == settle_tier::<C>(
                old(self)@,
                old(self).config,
                content_id,
                tier,
                consensus,
                is_reporter,
                reporter_id,
                reportee_id,
                final_status,
            ),
    {
        let report_voters = self.do_get_report_voters_by_vote(content_id, tier, consensus)?;
        let reward_pool = self.do_get_total_moderation_pool(content_id, tier)?;
        let majority_count = report_voters.0.len() as u32;
        let majority_voter_reward = self.do_calculate_majority_voter_reward(reward_pool, majority_count)?;
        self.do_distribute_rewards_to_majority_voters(report_voters.0, majority_voter_reward)?;
        self.do_slash_tokens_from_minority_voters(report_voters.1)?;
        if is_reporter {
            let reportee_reward = Self::do_calculate_reportee_reward(reward_pool)?;
            self.do_transfer_funds_from_treasury(reportee_id, reportee_reward)?;
        } else {
            let reporter_reward = Self::do_calculate_reporter_reward(reward_pool)?;
            self.do_transfer_funds_from_treasury(reporter_id, reporter_reward)?;
        }
        match final_status {
            Some(status) => self.do_update_report_status(content_id, status),
            None => Ok(()),
        }
    }

    /// Settles each of `tiers` in turn (see `settle_tiers`).
    pub(crate) fn settle_all_tiers(
        &mut self,
        content_id: ContentId,
        tiers: &Vec<Tiers>,
        consensus: ReportStatus,
        is_reporter: bool,
        reporter_id: AccountId,
        reportee_id: AccountId,
        final_status: Option<ReportStatus>,
    ) -> (r: Result<(), DispatchError>)
        requires
            settle_fits::<C>(
                old(self)@,
                old(self).config,
                content_id,
                tiers@,
                consensus,
                is_reporter,
                reporter_id,
                reportee_id,
                final_status,
            ),
        ensures
            final(self).same_setup(*old(self)),
            final(self)@.events == old(self)@.events,
            (final(self)@, r) == settle_tiers::<C>(
                old(self)@,
                old(self).config,
                content_id,
                tiers@,
                consensus,
                is_reporter,
                reporter_id,
                reportee_id,
                final_status,
            ),
    {
        let ghost start = self@;
        let ghost cfg = self.config;
        let mut i: usize = 0;
        while i < tiers.len()
            invariant
                i <= tiers.len(),
                self.same_setup(*old(self)),
                start == old(self)@,
                self@.events == start.events,
                cfg == self.config,
                settle_fits::<C>(start, cfg, content_id, tiers@, consensus, is_reporter, reporter_id, reportee_id, final_status),
                settle_tiers::<C>(start, cfg, content_id, tiers@.take(i as int), consensus, is_reporter, reporter_id, reportee_id, final_status).1 is Ok,
                self@ == settle_tiers::<C>(start, cfg, content_id, tiers@.take(i as int), consensus, is_reporter, reporter_id, reportee_id, final_status).0,
            decreases tiers.len() - i,
        {
            let tier = tiers[i];
            assert(tiers@.take(i + 1).drop_last() == tiers@.take(i as int));
            assert(tiers@.take(i + 1).last() == tier);
            let result = self.settle_one_tier(content_id, tier, consensus, is_reporter, reporter_id, reportee_id, final_status);
            if result.is_err() {
                proof {
                    lemma_settle_stops::<C>(start, cfg, content_id, tiers@, consensus, is_reporter, reporter_id, reportee_id, final_status, i + 1);
                }
                return result;
            }
            i = i + 1;
        }
        assert(tiers@.take(tiers.len() as int) == tiers@);
        Ok(())
    }
}

} // verus!
