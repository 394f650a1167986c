//! Votes of drafted moderators and their consensus.
use vstd::prelude::*;

use crate::currency::Currency;
use crate::moderation::spec::{
    all_votes_submitted, create_vote_step, vote_consensus, voters, voters_by_vote,
    votes_with,
};
use crate::moderation::types::{
    tier_index, verdicts_view, verdict_key, ContentId, Error, Pallet, ReportStatus, Tiers, Vote,
    VoteChoice,
};
use crate::system::{AccountId, DispatchError};

verus! {

/// The voters of `votes` that chose `choice`, in order.
fn voters_choosing(votes: &Vec<Vote>, choice: VoteChoice) -> (r: Vec<AccountId>)
    ensures
        r@ == voters(votes@.filter(votes_with(choice))),
{
    let mut r: Vec<AccountId> = Vec::new();
    let mut i: usize = 0;
    while i < votes.len()
        invariant
            i <= votes.len(),
            r@ == voters(votes@.take(i as int).filter(votes_with(choice))),
        decreases votes.len() - i,
    {
        let vote = votes[i];
        proof {
            assert(votes@.take(i + 1) == votes@.take(i as int).push(vote));
            votes@.take(i as int).lemma_filter_push(vote, votes_with(choice));
            let before = votes@.take(i as int).filter(votes_with(choice));
            assert(voters(before.push(vote)) =~= voters(before).push(vote.voter));
        }
        if vote.is_for == choice {
            r.push(vote.voter);
        }
        i = i + 1;
    }
    assert(votes@.take(votes.len() as int) == votes@);
    r
}

/// Every voter of `votes`, in order.
fn all_voters(votes: &Vec<Vote>) -> (r: Vec<AccountId>)
    ensures
        r@ == voters(votes@),
{
    let mut r: Vec<AccountId> = Vec::new();
    let mut i: usize = 0;
    while i < votes.len()
        invariant
            i <= votes.len(),
            r@ == voters(votes@.take(i as int)),
        decreases votes.len() - i,
    {
        let vote = votes[i];
        assert(voters(votes@.take(i + 1)) =~= voters(votes@.take(i as int)).push(vote.voter));
        r.push(vote.voter);
        i = i + 1;
    }
    assert(votes@.take(votes.len() as int) == votes@);
    r
}

impl<C: Currency> Pallet<C> {
    /// Records the vote of `who` in the verdict of `tier` on `content_id`.
    pub fn do_create_vote(&mut self, content_id: ContentId, tier: Tiers, who: AccountId, is_for: VoteChoice) -> (r: Result<
        (),
        DispatchError,
    >)
        requires
            old(self)@.verdicts.contains_key(verdict_key(content_id, tier)) ==> old(self)@.verdicts[verdict_key(
                content_id,
                tier,
            )].votes.len() < old(self).config.max_reports_by_tier,
        ensures
            final(self).same_setup(*old(self)),
            final(self)@ == create_vote_step(old(self)@, content_id, tier, who, is_for).0,
            r == create_vote_step(old(self)@, content_id, tier, who, is_for).1,
    {
        let key = (content_id, tier_index(tier));
        match self.report_verdicts.get(&key) {
            None => { return Err(DispatchError::Moderation(Error::NonexistentReport)); },
            Some(outcome) => {
                if is_for == VoteChoice::For && outcome.votes_for == u32::MAX {
                    return Err(DispatchError::Moderation(Error::Overflow));
                }
            },
        }
        let mut outcome = self.report_verdicts.remove(&key).unwrap();
        outcome.votes.push(Vote { voter: who, is_for });
        if is_for == VoteChoice::For {
            outcome.votes_for = outcome.votes_for + 1;
        }
        let ghost outcome_view = outcome@;
        self.report_verdicts.insert(key, outcome);
        assert(verdicts_view(self.report_verdicts@) =~= verdicts_view(old(self).report_verdicts@).insert(
            key,
            outcome_view,
        ));
        Ok(())
    }

    /// Whether the verdict of `tier` on `content_id` has all its votes.
    pub fn do_are_all_votes_submitted(&self, content_id: ContentId, tier: Tiers) -> (r: Result<bool, DispatchError>)
        ensures
            r == all_votes_submitted(self@, content_id, tier),
    {
        match self.report_verdicts.get(&(content_id, tier_index(tier))) {
            None => Err(DispatchError::Moderation(Error::NonexistentReport)),
            Some(verdict) => Ok(verdict.votes.len() == verdict.required_votes as usize),
        }
    }

    /// A majority for the report when more than half of the required votes
    /// are for it, a majority against otherwise.
    pub fn do_calculate_vote_consensus(&self, content_id: ContentId, tier: Tiers) -> (r: Result<
        ReportStatus,
        DispatchError,
    >)
        requires
            self@.verdicts.contains_key(verdict_key(content_id, tier)) ==> {
                let o = self@.verdicts[verdict_key(content_id, tier)];
                &&& o.votes_for * 1000 <= u32::MAX
                &&& o.required_votes * 1000 <= u32::MAX
            },
        ensures
            r == vote_consensus(self@, content_id, tier),
    {
        match self.report_verdicts.get(&(content_id, tier_index(tier))) {
            None => Err(DispatchError::Moderation(Error::NonexistentReport)),
            Some(verdict) => {
                if verdict.votes_for * 1000 > (verdict.required_votes * 1000) / 2 {
                    Ok(ReportStatus::MajorityVotedFor)
                } else {
                    Ok(ReportStatus::MajorityVotedAgainst)
                }
            },
        }
    }

    /// The voters on the side of `consensus` and the voters against it, in
    /// the verdict of `tier` on `content_id`.
    pub fn do_get_report_voters_by_vote(&self, content_id: ContentId, tier: Tiers, consensus: ReportStatus) -> (r: Result<
        (Vec<AccountId>, Vec<AccountId>),
        DispatchError,
    >)
        requires
            self@.verdicts.contains_key(verdict_key(content_id, tier)),
        ensures
            r is Ok,
            (r.unwrap().0@, r.unwrap().1@) == voters_by_vote(
                self@.verdicts[verdict_key(content_id, tier)].votes,
                consensus,
            ),
    {
        let verdict = self.report_verdicts.get(&(content_id, tier_index(tier))).unwrap();
        assert(self@.verdicts[verdict_key(content_id, tier)] == verdict@);
        if consensus == ReportStatus::MajorityVotedFor || consensus == ReportStatus::AppealedByReportee {
            let majority = voters_choosing(&verdict.votes, VoteChoice::For);
            let minority = voters_choosing(&verdict.votes, VoteChoice::Against);
            Ok((majority, minority))
        } else if consensus == ReportStatus::MajorityVotedAgainst || consensus == ReportStatus::AppealedByReporter {
            let majority = voters_choosing(&verdict.votes, VoteChoice::Against);
            let minority = voters_choosing(&verdict.votes, VoteChoice::For);
            Ok((majority, minority))
        } else {
            let majority = all_voters(&verdict.votes);
            let minority = all_voters(&verdict.votes);
            Ok((majority, minority))
        }
    }

    /// The tokens staked in the verdict of `tier` on `content_id`.
    pub fn do_get_total_moderation_pool(&self, content_id: ContentId, tier: Tiers) -> (r: Result<
        crate::system::Balance,
        DispatchError,
    >)
        ensures
            r == (if self@.verdicts.contains_key(verdict_key(content_id, tier)) {
                Ok::<crate::system::Balance, DispatchError>(
                    self@.verdicts[verdict_key(content_id, tier)].staked_tokens,
                )
            } else {
                crate::moderation::types::fail::<crate::system::Balance>(Error::NonexistentReport)
            }),
    {
        match self.report_verdicts.get(&(content_id, tier_index(tier))) {
            None => Err(DispatchError::Moderation(Error::NonexistentReport)),
            Some(verdict) => Ok(verdict.staked_tokens),
        }
    }
}

} // verus!
