//! Reports, their verdicts per tier, and who may decide on them.
use vstd::prelude::*;

use crate::currency::Currency;
use crate::moderation::spec::{
    can_accept_appeal, can_accept_verdict, create_report_state, create_verdict_state,
    reporter_or_reportee, status_on_accept, status_on_appeal, tier_data, update_status_step,
};
use crate::moderation::types::{
    fail, reports_view, tier_index, verdicts_view, verdict_key, ContentId, ContentType, Error,
    InfringimentType, Pallet, Report, ReportOutcome, ReportStatus, Tiers,
};
use crate::system::{AccountId, Balance, DispatchError};

verus! {

impl<C: Currency> Pallet<C> {
    /// Fails when `content_id` is already reported.
    pub fn do_validate_report_data(&self, content_id: ContentId, _justification: &Vec<u8>) -> (r: Result<
        (),
        DispatchError,
    >)
        ensures
            r == (if self@.reports.contains_key(content_id) {
                fail::<()>(Error::ReportAlreadyOngoing)
            } else {
                Ok(())
            }),
    {
        if self.reports.contains_key(&content_id) {
            return Err(DispatchError::Moderation(Error::ReportAlreadyOngoing));
        }
        Ok(())
    }

    /// The status of the report on `content_id` when it has a verdict (a
    /// majority for or against); fails otherwise.
    pub fn do_check_if_report_verdict_is_acceptable(&self, content_id: ContentId) -> (r: Result<
        ReportStatus,
        DispatchError,
    >)
        requires
            self@.reports.contains_key(content_id),
        ensures
            ({
                let status = self@.reports[content_id].status;
                r == if status == ReportStatus::MajorityVotedFor || status == ReportStatus::MajorityVotedAgainst {
                    Ok::<ReportStatus, DispatchError>(status)
                } else {
                    fail::<ReportStatus>(Error::NonexistentReport)
                }
            }),
    {
        let report = self.reports.get(&content_id).unwrap();
        if !(report.status == ReportStatus::MajorityVotedFor || report.status == ReportStatus::MajorityVotedAgainst) {
            return Err(DispatchError::Moderation(Error::NonexistentReport));
        }
        Ok(report.status)
    }

    /// The status of the report on `content_id` when it is appealed; fails
    /// otherwise.
    pub fn do_check_if_report_appeal_is_acceptable(&self, content_id: ContentId) -> (r: Result<
        ReportStatus,
        DispatchError,
    >)
        requires
            self@.reports.contains_key(content_id),
        ensures
            ({
                let status = self@.reports[content_id].status;
                r == if status == ReportStatus::AppealedByReporter || status == ReportStatus::AppealedByReportee {
                    Ok::<ReportStatus, DispatchError>(status)
                } else {
                    fail::<ReportStatus>(Error::NonexistentReport)
                }
            }),
    {
        let report = self.reports.get(&content_id).unwrap();
        if !(report.status == ReportStatus::AppealedByReporter || report.status == ReportStatus::AppealedByReportee) {
            return Err(DispatchError::Moderation(Error::NonexistentReport));
        }
        Ok(report.status)
    }

    /// Stores a report by `who` on `content_id`, in resolution.
    pub fn do_create_report(
        &mut self,
        who: AccountId,
        content_id: ContentId,
        reportee_id: AccountId,
        content_type: ContentType,
        infringiment: InfringimentType,
        justification: Vec<u8>,
    ) -> (r: Result<(), DispatchError>)
        requires
            justification@.len() <= old(self).config.justification_limit,
        ensures
            r is Ok,
            final(self).same_setup(*old(self)),
            final(self)@ == create_report_state(
                old(self)@,
                who,
                content_id,
                reportee_id,
                content_type,
                infringiment,
                justification@,
            ),
    {
        let report = Report {
            reporter_id: who,
            reportee_id,
            content_type,
            infringiment,
            justification,
            status: ReportStatus::InResolution,
        };
        let ghost report_view = report@;
        self.reports.insert(content_id, report);
        assert(reports_view(self.reports@) =~= reports_view(old(self).reports@).insert(content_id, report_view));
        Ok(())
    }

    /// Stores an empty verdict of `tier` on `content_id` staking `reward_pool`.
    pub fn do_create_report_verdict(&mut self, content_id: ContentId, tier: Tiers, reward_pool: Balance) -> (r: Result<
        (),
        DispatchError,
    >)
        ensures
            r is Ok,
            final(self).same_setup(*old(self)),
            final(self)@ == create_verdict_state(old(self)@, old(self).config, content_id, tier, reward_pool),
    {
        let outcome = ReportOutcome {
            staked_tokens: reward_pool,
            required_votes: self.config.total_tier_one_moderators,
            votes_for: 0,
            votes: Vec::new(),
        };
        let ghost outcome_view = outcome@;
        self.report_verdicts.insert((content_id, tier_index(tier)), outcome);
        assert(verdicts_view(self.report_verdicts@) =~= verdicts_view(old(self).report_verdicts@).insert(
            verdict_key(content_id, tier),
            outcome_view,
        ));
        Ok(())
    }

    /// Whether a verdict of `tier` on `content_id` is stored.
    fn has_verdict(&self, content_id: ContentId, tier: Tiers) -> (r: bool)
        ensures
            r == self@.verdicts.contains_key(verdict_key(content_id, tier)),
    {
        self.report_verdicts.contains_key(&(content_id, tier_index(tier)))
    }

    /// The current tier of the report on `content_id`, the tier an appeal
    /// goes to, whether it can be appealed, and the tiers it went through.
    pub fn do_get_current_report_tier_data(&self, content_id: ContentId) -> (r: Result<
        (Tiers, Tiers, bool, Vec<Tiers>),
        DispatchError,
    >)
        ensures
            match r {
                Ok(t) => tier_data(self@, content_id) == Ok::<(Tiers, Tiers, bool, Seq<Tiers>), DispatchError>(
                    (t.0, t.1, t.2, t.3@),
                ),
                Err(e) => tier_data(self@, content_id) == Err::<(Tiers, Tiers, bool, Seq<Tiers>), DispatchError>(
                    e,
                ),
            },
    {
        if !self.has_verdict(content_id, Tiers::TierOne) {
            return Err(DispatchError::Moderation(Error::NonexistentReport));
        }
        let mut current_tier = Tiers::TierOne;
        let mut next_tier = Tiers::TierTwo;
        let mut is_appealable = true;
        let mut all_tiers: Vec<Tiers> = vec![Tiers::TierOne];
        if self.has_verdict(content_id, Tiers::TierThree) {
            current_tier = Tiers::TierThree;
            next_tier = Tiers::TierThree;
            all_tiers.push(Tiers::TierTwo);
            all_tiers.push(Tiers::TierThree);
            is_appealable = false;
        } else if self.has_verdict(content_id, Tiers::TierTwo) {
            current_tier = Tiers::TierTwo;
            next_tier = Tiers::TierThree;
            all_tiers.push(Tiers::TierTwo);
        }
        assert(all_tiers@ =~= tier_data(self@, content_id).unwrap().3);
        Ok((current_tier, next_tier, is_appealable, all_tiers))
    }

    /// Sets the status of the report on `content_id`.
    pub fn do_update_report_status(&mut self, content_id: ContentId, report_status: ReportStatus) -> (r: Result<
        (),
        DispatchError,
    >)
        ensures
            final(self).same_setup(*old(self)),
            final(self)@ == update_status_step(old(self)@, content_id, report_status).0,
            r == update_status_step(old(self)@, content_id, report_status).1,
    {
        match self.reports.remove(&content_id) {
            None => {
                assert(self.reports@ =~= old(self).reports@);
                Err(DispatchError::Moderation(Error::NonexistentReport))
            },
            Some(mut report) => {
                report.status = report_status;
                let ghost report_view = report@;
                self.reports.insert(content_id, report);
                assert(reports_view(self.reports@) =~= reports_view(old(self).reports@).insert(
                    content_id,
                    report_view,
                ));
                Ok(())
            },
        }
    }

    /// Whether `who` is the reporter (true) or the reportee (false) of the
    /// report on `content_id`; fails for anyone else.
    pub fn do_check_if_reporter_or_reportee(&self, who: AccountId, content_id: ContentId) -> (r: Result<
        bool,
        DispatchError,
    >)
        requires
            self@.reports.contains_key(content_id),
        ensures
            r == reporter_or_reportee(self@, who, content_id),
    {
        let report = self.reports.get(&content_id).unwrap();
        let mut is_reporter = true;
        if report.reportee_id == who {
            is_reporter = false;
        } else if report.reporter_id != who {
            return Err(DispatchError::Moderation(Error::UserCannotAcceptVerdict));
        }
        Ok(is_reporter)
    }

    /// Fails when the side `is_reporter` may not accept the verdict on
    /// `content_id`.
    pub fn do_can_user_accept_verdict(&self, is_reporter: bool, content_id: ContentId) -> (r: Result<
        (),
        DispatchError,
    >)
        requires
            self@.reports.contains_key(content_id),
        ensures
            r == can_accept_verdict(self@, is_reporter, content_id),
    {
        let report = self.reports.get(&content_id).unwrap();
        if report.status == ReportStatus::MajorityVotedFor {
            if is_reporter {
                return Err(DispatchError::Moderation(Error::UserCannotAcceptVerdict));
            }
        } else if report.status == ReportStatus::MajorityVotedAgainst {
            if !is_reporter {
                return Err(DispatchError::Moderation(Error::UserCannotAcceptVerdict));
            }
        }
        Ok(())
    }

    /// Fails when the side `is_reporter` may not decide on the appeal of the
    /// report on `content_id`.
    pub fn do_can_user_accept_appeal(&self, is_reporter: bool, content_id: ContentId) -> (r: Result<
        (),
        DispatchError,
    >)
        requires
            self@.reports.contains_key(content_id),
        ensures
            r == can_accept_appeal(self@, is_reporter, content_id),
    {
        let report = self.reports.get(&content_id).unwrap();
        if report.status == ReportStatus::AppealedByReporter {
            if is_reporter {
                return Err(DispatchError::Moderation(Error::UserCannotAcceptVerdict));
            }
        } else if report.status == ReportStatus::AppealedByReportee {
            if !is_reporter {
                return Err(DispatchError::Moderation(Error::UserCannotAcceptVerdict));
            }
        }
        Ok(())
    }

    /// The reporter of the report on `content_id`.
    pub fn do_get_reporter(&self, content_id: ContentId) -> (r: Result<AccountId, DispatchError>)
        ensures
            r == (if self@.reports.contains_key(content_id) {
                Ok::<AccountId, DispatchError>(self@.reports[content_id].reporter_id)
            } else {
                fail::<AccountId>(Error::NonexistentReport)
            }),
    {
        match self.reports.get(&content_id) {
            Some(report) => Ok(report.reporter_id),
            None => Err(DispatchError::Moderation(Error::NonexistentReport)),
        }
    }

    /// The reportee of the report on `content_id`.
    pub fn do_get_reportee(&self, content_id: ContentId) -> (r: Result<AccountId, DispatchError>)
        ensures
            r == (if self@.reports.contains_key(content_id) {
                Ok::<AccountId, DispatchError>(self@.reports[content_id].reportee_id)
            } else {
                fail::<AccountId>(Error::NonexistentReport)
            }),
    {
        match self.reports.get(&content_id) {
            Some(report) => Ok(report.reportee_id),
            None => Err(DispatchError::Moderation(Error::NonexistentReport)),
        }
    }

    /// The final status of a report whose verdict the side `is_reporter`
    /// accepts: refused when the reporter accepts, accepted otherwise.
    pub fn do_get_report_status_on_accept(is_reporter: bool) -> (r: Result<ReportStatus, DispatchError>)
        ensures
            r == Ok::<ReportStatus, DispatchError>(status_on_accept(is_reporter)),
    {
        if is_reporter {
            Ok(ReportStatus::Refused)
        } else {
            Ok(ReportStatus::Accepted)
        }
    }

    /// The status of a report appealed by the side `is_reporter`.
    pub fn do_get_report_status_on_appeal(is_reporter: bool) -> (r: Result<ReportStatus, DispatchError>)
        ensures
            r == Ok::<ReportStatus, DispatchError>(status_on_appeal(is_reporter)),
    {
        if is_reporter {
            Ok(ReportStatus::AppealedByReporter)
        } else {
            Ok(ReportStatus::AppealedByReportee)
        }
    }
}

} // verus!
