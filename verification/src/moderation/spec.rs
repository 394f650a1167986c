//! What the moderation module computes, stated over its views.
use vstd::prelude::*;

use crate::currency::Currency;
use crate::moderation::types::{
    Event, fail, verdict_key, Config, ContentId, ContentType, Error, InfringimentType, ModerationView,
    ModeratorView, OutcomeView, ReportStatus, ReportView, Tiers, Vote, VoteChoice,
};
use crate::stat_tracker::Stats;
use crate::system::{AccountId, Balance, DispatchError};

verus! {

/// The share of the movie collateral paid to each tier-one moderator; none
/// when no moderator is configured.
pub open spec fn moderator_fee(cfg: Config) -> Option<Balance> {
    if cfg.total_tier_one_moderators == 0 {
        None
    } else {
        Some((cfg.movie_collateral / (cfg.total_tier_one_moderators as Balance)) as Balance)
    }
}

/// `a * b`, or the largest balance when the product does not fit.
pub open spec fn saturating_mul(a: Balance, b: Balance) -> Balance {
    if a * b > u128::MAX {
        u128::MAX
    } else {
        (a * b) as Balance
    }
}

/// The stake of a report paid to `total_moderators` moderators, and the whole
/// pool of a report (reporter, reportee and moderators each one third).
pub open spec fn report_pool(cfg: Config, total_moderators: u32) -> Result<(Balance, Balance), DispatchError> {
    match moderator_fee(cfg) {
        None => fail(Error::Overflow),
        Some(fee) => Ok((saturating_mul(fee, total_moderators as Balance), saturating_mul(fee, 3))),
    }
}

/// What the reportee receives of a pool when the reporter loses.
pub open spec fn reportee_reward(pool: Balance) -> Balance {
    (pool / 2 - pool / 3) as Balance
}

/// What the reporter receives of a pool when the reportee loses.
pub open spec fn reporter_reward(pool: Balance) -> Balance {
    pool / 2
}

/// What each of `voters` majority voters receives of a pool: their share less
/// the moderator fee.
pub open spec fn majority_voter_reward(cfg: Config, pool: Balance, voters: u32) -> Result<Balance, DispatchError> {
    if voters == 0 {
        fail(Error::Overflow)
    } else {
        match moderator_fee(cfg) {
            None => fail(Error::Overflow),
            Some(fee) => {
                let share = pool / (voters as Balance);
                if share < fee {
                    fail(Error::Overflow)
                } else {
                    Ok((share - fee) as Balance)
                }
            },
        }
    }
}

/// The state after a step of a call, and what the step returned.
pub type Step<T> = (ModerationView, Result<T, DispatchError>);

// ----- balances -----

/// A transfer of `amount` from `from` to `to` through the balances module.
pub open spec fn transfer_step<C: Currency>(s: ModerationView, from: AccountId, to: AccountId, amount: Balance) -> Step<()> {
    match C::transfer_outcome(s.ledger, from, to, amount) {
        Ok(_) => (ModerationView { ledger: s.ledger.after_transfer(from, to, amount), ..s }, Ok(())),
        Err(e) => (s, Err(DispatchError::Currency(e))),
    }
}

/// Takes `collateral` of the reserved funds of the reportee of `content_id`
/// into the vault: the funds are unreserved, then transferred.
pub open spec fn grab_collateral_step<C: Currency>(s: ModerationView, cfg: Config, content_id: ContentId, collateral: Balance) -> Step<()> {
    if !s.reports.contains_key(content_id) {
        (s, fail(Error::NonexistentReport))
    } else {
        let reportee = s.reports[content_id].reportee_id;
        let unreserved = ModerationView { ledger: s.ledger.after_unreserve(reportee, collateral), ..s };
        transfer_step::<C>(unreserved, reportee, cfg.pallet_account, collateral)
    }
}

// ----- moderators -----

/// A freshly registered moderator: the minimum stake and no report.
pub open spec fn new_moderator(cfg: Config) -> ModeratorView {
    ModeratorView { collateral_tokens: cfg.minimum_tokens_for_moderation, assigned_reports: Seq::empty() }
}

/// `who` registered as moderator and as wallet with the default reputation.
pub open spec fn create_moderator_state(s: ModerationView, cfg: Config, reputation: u32, who: AccountId) -> ModerationView {
    ModerationView {
        moderators: s.moderators.insert(who, new_moderator(cfg)),
        reputation: s.reputation.insert(who, Stats { reputation }),
        ..s
    }
}

/// Every moderator mapped to `value`.
pub open spec fn per_moderator<V>(s: ModerationView, value: V) -> Map<AccountId, V> {
    Map::new(|a: AccountId| s.moderators.contains_key(a), |a: AccountId| value)
}

/// The moderators and their reputation, after every moderator was registered
/// anew as wallet. Fails when the encoded size hint of the list of moderator
/// accounts (a four-byte length and eight bytes per account) is below the
/// number of tier-one moderators.
pub open spec fn moderator_btree_step(s: ModerationView, cfg: Config, reputation: u32) -> Step<Map<AccountId, u32>> {
    if 4 + 8 * s.moderators.dom().len() < cfg.total_tier_one_moderators {
        (s, fail(Error::NotEnoughModeratorsRegistered))
    } else {
        (
            ModerationView {
                reputation: s.reputation.union_prefer_right(per_moderator(s, Stats { reputation })),
                ..s
            },
            Ok(per_moderator(s, reputation)),
        )
    }
}

/// `r` lists, in increasing order, the `n` smallest accounts of `dom`, or all
/// of them when `dom` has fewer.
pub open spec fn is_first_keys(r: Seq<AccountId>, dom: Set<AccountId>, n: nat) -> bool {
    &&& forall|i: int, j: int| 0 <= i < j < r.len() ==> r[i] < r[j]
    &&& forall|i: int| 0 <= i < r.len() ==> dom.contains(#[trigger] r[i])
    &&& r.len() <= n
    &&& forall|k: AccountId| #[trigger] dom.contains(k) && !r.contains(k) ==> {
        &&& r.len() == n
        &&& forall|i: int| 0 <= i < r.len() ==> r[i] < k
    }
}

/// The `n` smallest accounts of `dom`, in increasing order.
pub open spec fn first_keys(dom: Set<AccountId>, n: nat) -> Seq<AccountId> {
    choose|r: Seq<AccountId>| is_first_keys(r, dom, n)
}

/// `m` with `c` appended to the reports of moderator `who`.
pub open spec fn with_assigned(m: Map<AccountId, ModeratorView>, who: AccountId, c: ContentId) -> Map<AccountId, ModeratorView> {
    m.insert(who, ModeratorView { assigned_reports: m[who].assigned_reports.push(c), ..m[who] })
}

/// `c` appended to the reports of each of `list` in turn, stopping at the
/// first account that is not a moderator.
pub open spec fn assign_reports(m: Map<AccountId, ModeratorView>, list: Seq<AccountId>, c: ContentId) -> (Map<AccountId, ModeratorView>, Result<(), DispatchError>)
    decreases list.len(),
{
    if list.len() == 0 {
        (m, Ok(()))
    } else {
        let (m1, r1) = assign_reports(m, list.drop_last(), c);
        if r1 is Err {
            (m1, r1)
        } else if !m1.contains_key(list.last()) {
            (m1, fail(Error::NonexistentModerator))
        } else {
            (with_assigned(m1, list.last(), c), Ok(()))
        }
    }
}

/// Every moderator that `assign_reports` reaches has room for one more report.
pub open spec fn assign_fits(m: Map<AccountId, ModeratorView>, list: Seq<AccountId>, c: ContentId, max: u32) -> bool {
    forall|k: int|
        0 <= k < list.len() ==> {
            let (m1, r1) = #[trigger] assign_reports(m, list.take(k), c);
            (r1 is Ok && m1.contains_key(list[k])) ==> m1[list[k]].assigned_reports.len() < max
        }
}

pub open spec fn other_content(c: ContentId) -> spec_fn(ContentId) -> bool {
    |x: ContentId| x != c
}

/// `who` no longer assigned to `c`.
pub open spec fn deallocate_step(s: ModerationView, who: AccountId, c: ContentId) -> Step<()> {
    if !s.moderators.contains_key(who) {
        (s, fail(Error::NonexistentModerator))
    } else {
        let m = s.moderators[who];
        (
            ModerationView {
                moderators: s.moderators.insert(
                    who,
                    ModeratorView { assigned_reports: m.assigned_reports.filter(other_content(c)), ..m },
                ),
                ..s
            },
            Ok(()),
        )
    }
}

/// The stake of moderator `who` returned from the vault, then `who` removed.
pub open spec fn suspend_step<C: Currency>(s: ModerationView, cfg: Config, who: AccountId) -> Step<()> {
    let (s1, r1) = transfer_step::<C>(s, cfg.pallet_account, who, s.moderators[who].collateral_tokens);
    if r1 is Err {
        (s1, r1)
    } else {
        (ModerationView { moderators: s1.moderators.remove(who), ..s1 }, Ok(()))
    }
}

/// The part of the stake of `who` above the minimum, taken off the stake.
pub open spec fn claim_reward_step(s: ModerationView, cfg: Config, who: AccountId) -> Step<Balance> {
    if !s.moderators.contains_key(who) {
        (s, fail(Error::NonexistentModerator))
    } else {
        let m = s.moderators[who];
        if m.collateral_tokens > cfg.minimum_tokens_for_moderation {
            (
                ModerationView {
                    moderators: s.moderators.insert(
                        who,
                        ModeratorView { collateral_tokens: cfg.minimum_tokens_for_moderation, ..m },
                    ),
                    ..s
                },
                Ok((m.collateral_tokens - cfg.minimum_tokens_for_moderation) as Balance),
            )
        } else {
            (s, Ok(0))
        }
    }
}

/// `m` with the stake of `who` set to `collateral`.
pub open spec fn with_collateral(m: Map<AccountId, ModeratorView>, who: AccountId, collateral: Balance) -> Map<AccountId, ModeratorView> {
    m.insert(who, ModeratorView { collateral_tokens: collateral, ..m[who] })
}

/// `reward` added to the stake of each of `voters` in turn, stopping at the
/// first account that is not a moderator or whose stake would overflow.
pub open spec fn credit_voters(m: Map<AccountId, ModeratorView>, voters: Seq<AccountId>, reward: Balance) -> (Map<AccountId, ModeratorView>, Result<(), DispatchError>)
    decreases voters.len(),
{
    if voters.len() == 0 {
        (m, Ok(()))
    } else {
        let (m1, r1) = credit_voters(m, voters.drop_last(), reward);
        let who = voters.last();
        if r1 is Err {
            (m1, r1)
        } else if !m1.contains_key(who) {
            (m1, fail(Error::NonexistentModerator))
        } else if m1[who].collateral_tokens + reward > u128::MAX {
            (m1, fail(Error::Overflow))
        } else {
            (with_collateral(m1, who, (m1[who].collateral_tokens + reward) as Balance), Ok(()))
        }
    }
}

/// `fee` taken from the stake of each of `voters` in turn, stopping at the
/// first account that is not a moderator or whose stake is below the fee.
pub open spec fn debit_voters(m: Map<AccountId, ModeratorView>, voters: Seq<AccountId>, fee: Balance) -> (Map<AccountId, ModeratorView>, Result<(), DispatchError>)
    decreases voters.len(),
{
    if voters.len() == 0 {
        (m, Ok(()))
    } else {
        let (m1, r1) = debit_voters(m, voters.drop_last(), fee);
        let who = voters.last();
        if r1 is Err {
            (m1, r1)
        } else if !m1.contains_key(who) {
            (m1, fail(Error::NonexistentModerator))
        } else if m1[who].collateral_tokens < fee {
            (m1, fail(Error::Overflow))
        } else {
            (with_collateral(m1, who, (m1[who].collateral_tokens - fee) as Balance), Ok(()))
        }
    }
}

/// The majority voters rewarded.
pub open spec fn distribute_step(s: ModerationView, voters: Seq<AccountId>, reward: Balance) -> Step<()> {
    let (m, r) = credit_voters(s.moderators, voters, reward);
    (ModerationView { moderators: m, ..s }, r)
}

/// The minority voters slashed by the moderator fee.
pub open spec fn slash_step(s: ModerationView, cfg: Config, voters: Seq<AccountId>) -> Step<()> {
    match moderator_fee(cfg) {
        None => (s, fail(Error::Overflow)),
        Some(fee) => {
            let (m, r) = debit_voters(s.moderators, voters, fee);
            (ModerationView { moderators: m, ..s }, r)
        },
    }
}

// ----- reports -----

/// A report on `content_id`, in resolution, replacing any earlier one.
pub open spec fn create_report_state(
    s: ModerationView,
    who: AccountId,
    content_id: ContentId,
    reportee_id: AccountId,
    content_type: ContentType,
    infringiment: InfringimentType,
    justification: Seq<u8>,
) -> ModerationView {
    ModerationView {
        reports: s.reports.insert(
            content_id,
            ReportView {
                reporter_id: who,
                reportee_id,
                content_type,
                infringiment,
                justification,
                status: ReportStatus::InResolution,
            },
        ),
        ..s
    }
}

/// An empty verdict of `tier` on `content_id` staking `reward_pool`.
pub open spec fn create_verdict_state(s: ModerationView, cfg: Config, content_id: ContentId, tier: Tiers, reward_pool: Balance) -> ModerationView {
    ModerationView {
        verdicts: s.verdicts.insert(
            verdict_key(content_id, tier),
            OutcomeView {
                staked_tokens: reward_pool,
                required_votes: cfg.total_tier_one_moderators,
                votes_for: 0,
                votes: Seq::empty(),
            },
        ),
        ..s
    }
}

/// The tier a report is in, the tier an appeal goes to, whether it can still
/// be appealed, and the tiers it went through; the report is in tier one when
/// it has a tier-one verdict, and in the highest tier it has a verdict of.
pub open spec fn tier_data(s: ModerationView, content_id: ContentId) -> Result<(Tiers, Tiers, bool, Seq<Tiers>), DispatchError> {
    if !s.verdicts.contains_key(verdict_key(content_id, Tiers::TierOne)) {
        fail(Error::NonexistentReport)
    } else if s.verdicts.contains_key(verdict_key(content_id, Tiers::TierThree)) {
        Ok((Tiers::TierThree, Tiers::TierThree, false, seq![Tiers::TierOne, Tiers::TierTwo, Tiers::TierThree]))
    } else if s.verdicts.contains_key(verdict_key(content_id, Tiers::TierTwo)) {
        Ok((Tiers::TierTwo, Tiers::TierThree, true, seq![Tiers::TierOne, Tiers::TierTwo]))
    } else {
        Ok((Tiers::TierOne, Tiers::TierTwo, true, seq![Tiers::TierOne]))
    }
}

/// The status of the report on `content_id` set to `status`.
pub open spec fn update_status_step(s: ModerationView, content_id: ContentId, status: ReportStatus) -> Step<()> {
    if !s.reports.contains_key(content_id) {
        (s, fail(Error::NonexistentReport))
    } else {
        (
            ModerationView {
                reports: s.reports.insert(content_id, ReportView { status, ..s.reports[content_id] }),
                ..s
            },
            Ok(()),
        )
    }
}

/// Whether `who` is the reporter (true) or the reportee (false) of the report
/// on `content_id`; a reportee who also reported counts as reportee.
pub open spec fn reporter_or_reportee(s: ModerationView, who: AccountId, content_id: ContentId) -> Result<bool, DispatchError> {
    let report = s.reports[content_id];
    if report.reportee_id == who {
        Ok(false)
    } else if report.reporter_id == who {
        Ok(true)
    } else {
        fail(Error::UserCannotAcceptVerdict)
    }
}

/// Whether the side `is_reporter` may agree with the outcome: when most votes
/// are for the report only the reportee may agree, when most are against it
/// only the reporter may.
pub open spec fn can_accept_verdict(s: ModerationView, is_reporter: bool, content_id: ContentId) -> Result<(), DispatchError> {
    let status = s.reports[content_id].status;
    if (status == ReportStatus::MajorityVotedFor && is_reporter) || (status == ReportStatus::MajorityVotedAgainst
        && !is_reporter) {
        fail(Error::UserCannotAcceptVerdict)
    } else {
        Ok(())
    }
}

/// Whether the side `is_reporter` may decide on an appeal: an appeal of the
/// reporter is the reportee's to decide, and the other way round.
pub open spec fn can_accept_appeal(s: ModerationView, is_reporter: bool, content_id: ContentId) -> Result<(), DispatchError> {
    let status = s.reports[content_id].status;
    if (status == ReportStatus::AppealedByReporter && is_reporter) || (status == ReportStatus::AppealedByReportee
        && !is_reporter) {
        fail(Error::UserCannotAcceptVerdict)
    } else {
        Ok(())
    }
}

/// The final status of a report whose verdict the side `is_reporter` accepts.
pub open spec fn status_on_accept(is_reporter: bool) -> ReportStatus {
    if is_reporter {
        ReportStatus::Refused
    } else {
        ReportStatus::Accepted
    }
}

/// The status of a report that the side `is_reporter` appeals.
pub open spec fn status_on_appeal(is_reporter: bool) -> ReportStatus {
    if is_reporter {
        ReportStatus::AppealedByReporter
    } else {
        ReportStatus::AppealedByReportee
    }
}

// ----- votes -----

/// The vote of `who` added to the verdict of `tier` on `content_id`.
pub open spec fn create_vote_step(s: ModerationView, content_id: ContentId, tier: Tiers, who: AccountId, is_for: VoteChoice) -> Step<()> {
    let key = verdict_key(content_id, tier);
    if !s.verdicts.contains_key(key) {
        (s, fail(Error::NonexistentReport))
    } else {
        let o = s.verdicts[key];
        if is_for == VoteChoice::For && o.votes_for == u32::MAX {
            (s, fail(Error::Overflow))
        } else {
            (
                ModerationView {
                    verdicts: s.verdicts.insert(
                        key,
                        OutcomeView {
                            votes: o.votes.push(Vote { voter: who, is_for }),
                            votes_for: if is_for == VoteChoice::For {
                                (o.votes_for + 1) as u32
                            } else {
                                o.votes_for
                            },
                            ..o
                        },
                    ),
                    ..s
                },
                Ok(()),
            )
        }
    }
}

/// Whether the verdict of `tier` on `content_id` has all its votes.
pub open spec fn all_votes_submitted(s: ModerationView, content_id: ContentId, tier: Tiers) -> Result<bool, DispatchError> {
    let key = verdict_key(content_id, tier);
    if !s.verdicts.contains_key(key) {
        fail(Error::NonexistentReport)
    } else {
        Ok(s.verdicts[key].votes.len() == s.verdicts[key].required_votes)
    }
}

/// A strict majority of the required votes is for the report.
pub open spec fn majority_for(votes_for: u32, required_votes: u32) -> bool {
    votes_for * 1000 > (required_votes * 1000) / 2
}

/// The outcome of the votes of `tier` on `content_id`.
pub open spec fn vote_consensus(s: ModerationView, content_id: ContentId, tier: Tiers) -> Result<ReportStatus, DispatchError> {
    let key = verdict_key(content_id, tier);
    if !s.verdicts.contains_key(key) {
        fail(Error::NonexistentReport)
    } else if majority_for(s.verdicts[key].votes_for, s.verdicts[key].required_votes) {
        Ok(ReportStatus::MajorityVotedFor)
    } else {
        Ok(ReportStatus::MajorityVotedAgainst)
    }
}

pub open spec fn votes_with(choice: VoteChoice) -> spec_fn(Vote) -> bool {
    |v: Vote| v.is_for == choice
}

/// The voters of `votes`, in order.
pub open spec fn voters(votes: Seq<Vote>) -> Seq<AccountId> {
    votes.map_values(|v: Vote| v.voter)
}

/// The voters on the side of `consensus` and those against it. A verdict for
/// the report, or an appeal of the reportee, is on the side of the votes for;
/// a verdict against, or an appeal of the reporter, on the side of the votes
/// against; for any other status both lists hold every voter.
pub open spec fn voters_by_vote(votes: Seq<Vote>, consensus: ReportStatus) -> (Seq<AccountId>, Seq<AccountId>) {
    if consensus == ReportStatus::MajorityVotedFor || consensus == ReportStatus::AppealedByReportee {
        (voters(votes.filter(votes_with(VoteChoice::For))), voters(votes.filter(votes_with(VoteChoice::Against))))
    } else if consensus == ReportStatus::MajorityVotedAgainst || consensus == ReportStatus::AppealedByReporter {
        (voters(votes.filter(votes_with(VoteChoice::Against))), voters(votes.filter(votes_with(VoteChoice::For))))
    } else {
        (voters(votes), voters(votes))
    }
}

// ----- calls -----

/// The state after a call: the state its steps left with `event` recorded
/// when it succeeded, and the state before it when it failed.
pub open spec fn committed<T>(before: ModerationView, after: ModerationView, r: Result<T, DispatchError>, event: Event) -> ModerationView {
    if r is Ok {
        ModerationView { events: before.events.push(event), ..after }
    } else {
        before
    }
}

/// Registering `who` as moderator: its stake moves into the vault.
pub open spec fn apply_for_moderation_spec<C: Currency>(s: ModerationView, cfg: Config, reputation: u32, who: AccountId) -> Step<()> {
    if s.moderators.contains_key(who) {
        (s, fail(Error::AlreadyRegisteredAsModerator))
    } else {
        let (s1, r1) = transfer_step::<C>(s, who, cfg.pallet_account, cfg.minimum_tokens_for_moderation);
        if r1 is Err {
            (s1, r1)
        } else {
            (create_moderator_state(s1, cfg, reputation, who), Ok(()))
        }
    }
}

/// Moderator `who` leaving: only without pending reports; its stake returns
/// from the vault.
pub open spec fn suspend_moderation_spec<C: Currency>(s: ModerationView, cfg: Config, who: AccountId) -> Step<()> {
    if s.moderators[who].assigned_reports.len() != 0 {
        (s, fail(Error::ReportsAwaitingVote))
    } else {
        suspend_step::<C>(s, cfg, who)
    }
}

/// The moderators drafted for a report: the `total_tier_one_moderators`
/// smallest moderator accounts.
pub open spec fn drafted(s: ModerationView, cfg: Config) -> Seq<AccountId> {
    first_keys(s.moderators.dom(), cfg.total_tier_one_moderators as nat)
}

/// Reporting `content_id`: the reporter pays the moderators' stake into the
/// vault, every moderator is registered anew as wallet, a tier-one verdict
/// is opened and the drafted moderators are assigned the report.
pub open spec fn create_report_spec<C: Currency>(
    s: ModerationView,
    cfg: Config,
    reputation: u32,
    who: AccountId,
    content_id: ContentId,
    reportee_id: AccountId,
    content_type: ContentType,
    infringiment: InfringimentType,
    justification: Seq<u8>,
) -> Step<()> {
    if s.reports.contains_key(content_id) {
        (s, fail(Error::ReportAlreadyOngoing))
    } else {
        match report_pool(cfg, cfg.total_tier_one_moderators) {
            Err(e) => (s, Err(e)),
            Ok(pool) => {
                let (s1, r1) = transfer_step::<C>(s, who, cfg.pallet_account, pool.0);
                if r1 is Err {
                    (s1, r1)
                } else {
                    let (s2, r2) = moderator_btree_step(s1, cfg, reputation);
                    if r2 is Err {
                        (s2, Err(r2->Err_0))
                    } else {
                        let s3 = create_report_state(
                            s2,
                            who,
                            content_id,
                            reportee_id,
                            content_type,
                            infringiment,
                            justification,
                        );
                        let s4 = create_verdict_state(s3, cfg, content_id, Tiers::TierOne, pool.1);
                        let (m5, r5) = assign_reports(s4.moderators, drafted(s2, cfg), content_id);
                        (ModerationView { moderators: m5, ..s4 }, r5)
                    }
                }
            },
        }
    }
}

/// When `create_report_spec` gets to assigning the report, every drafted
/// moderator it reaches has room for it.
pub open spec fn create_report_fits<C: Currency>(s: ModerationView, cfg: Config, reputation: u32, who: AccountId, content_id: ContentId) -> bool {
    !s.reports.contains_key(content_id) && report_pool(cfg, cfg.total_tier_one_moderators) is Ok
        && transfer_step::<C>(s, who, cfg.pallet_account, report_pool(cfg, cfg.total_tier_one_moderators)->Ok_0.0).1 is Ok
        && moderator_btree_step(
        transfer_step::<C>(s, who, cfg.pallet_account, report_pool(cfg, cfg.total_tier_one_moderators)->Ok_0.0).0,
        cfg,
        reputation,
    ).1 is Ok ==> assign_fits(s.moderators, drafted(s, cfg), content_id, cfg.max_reports_by_moderator)
}

/// Drafted moderator `who` voting on `content_id` in its current tier: the
/// moderator is released from the report, and once all votes are in, the
/// report takes the consensus as status.
pub open spec fn submit_vote_spec(s: ModerationView, who: AccountId, content_id: ContentId, vote: VoteChoice) -> Step<()> {
    if !s.moderators[who].assigned_reports.contains(content_id) {
        (s, fail(Error::ModeratorNotDraftedForReport))
    } else {
        match tier_data(s, content_id) {
            Err(e) => (s, Err(e)),
            Ok(td) => {
                let (s1, r1) = create_vote_step(s, content_id, td.0, who, vote);
                if r1 is Err {
                    (s1, r1)
                } else {
                    let (s2, r2) = deallocate_step(s1, who, content_id);
                    if r2 is Err {
                        (s2, r2)
                    } else {
                        match all_votes_submitted(s2, content_id, td.0) {
                            Err(e) => (s2, Err(e)),
                            Ok(all) => if !all {
                                (s2, Ok(()))
                            } else {
                                match vote_consensus(s2, content_id, td.0) {
                                    Err(e) => (s2, Err(e)),
                                    Ok(consensus) => update_status_step(s2, content_id, consensus),
                                }
                            },
                        }
                    }
                }
            },
        }
    }
}

/// `who` is a moderator, the verdict it votes in has room for the vote, and
/// the consensus, when it is computed, fits `u32` arithmetic.
pub open spec fn submit_vote_fits(s: ModerationView, cfg: Config, who: AccountId, content_id: ContentId, vote: VoteChoice) -> bool {
    &&& s.moderators.contains_key(who)
    &&& (s.moderators[who].assigned_reports.contains(content_id) && tier_data(s, content_id) is Ok) ==> {
        let tier = tier_data(s, content_id)->Ok_0.0;
        let key = verdict_key(content_id, tier);
        let (s1, r1) = create_vote_step(s, content_id, tier, who, vote);
        let (s2, r2) = deallocate_step(s1, who, content_id);
        &&& s.verdicts.contains_key(key) ==> s.verdicts[key].votes.len() < cfg.max_reports_by_tier
        &&& (r1 is Ok && r2 is Ok && all_votes_submitted(s2, content_id, tier) == Ok::<bool, DispatchError>(true)) ==> {
            &&& s2.verdicts[key].votes_for * 1000 <= u32::MAX
            &&& s2.verdicts[key].required_votes * 1000 <= u32::MAX
        }
    }
}

// ----- settling a report -----

/// One tier of a decided report settled: the voters on the side of
/// `consensus` share the tier's pool less the moderator fee, the others are
/// slashed by the fee, and the winning side is paid from the vault (the
/// reportee when the reporter decides, the reporter otherwise); with
/// `final_status`, the report then takes that status.
pub open spec fn settle_tier<C: Currency>(
    s: ModerationView,
    cfg: Config,
    content_id: ContentId,
    tier: Tiers,
    consensus: ReportStatus,
    is_reporter: bool,
    reporter: AccountId,
    reportee: AccountId,
    final_status: Option<ReportStatus>,
) -> Step<()> {
    let key = verdict_key(content_id, tier);
    let (majority, minority) = voters_by_vote(s.verdicts[key].votes, consensus);
    let pool = s.verdicts[key].staked_tokens;
    match majority_voter_reward(cfg, pool, majority.len() as u32) {
        Err(e) => (s, Err(e)),
        Ok(reward) => {
            let (s1, r1) = distribute_step(s, majority, reward);
            if r1 is Err {
                (s1, r1)
            } else {
                let (s2, r2) = slash_step(s1, cfg, minority);
                if r2 is Err {
                    (s2, r2)
                } else {
                    let (s3, r3) = if is_reporter {
                        transfer_step::<C>(s2, cfg.pallet_account, reportee, reportee_reward(pool))
                    } else {
                        transfer_step::<C>(s2, cfg.pallet_account, reporter, reporter_reward(pool))
                    };
                    if r3 is Err || final_status is None {
                        (s3, r3)
                    } else {
                        update_status_step(s3, content_id, final_status->Some_0)
                    }
                }
            }
        },
    }
}

/// `settle_tier` for each of `tiers` in turn, stopping at the first failure.
pub open spec fn settle_tiers<C: Currency>(
    s: ModerationView,
    cfg: Config,
    content_id: ContentId,
    tiers: Seq<Tiers>,
    consensus: ReportStatus,
    is_reporter: bool,
    reporter: AccountId,
    reportee: AccountId,
    final_status: Option<ReportStatus>,
) -> Step<()>
    decreases tiers.len(),
{
    if tiers.len() == 0 {
        (s, Ok(()))
    } else {
        let (s1, r1) = settle_tiers::<C>(
            s,
            cfg,
            content_id,
            tiers.drop_last(),
            consensus,
            is_reporter,
            reporter,
            reportee,
            final_status,
        );
        if r1 is Err {
            (s1, r1)
        } else {
            settle_tier::<C>(s1, cfg, content_id, tiers.last(), consensus, is_reporter, reporter, reportee, final_status)
        }
    }
}

/// Every tier that `settle_tiers` reaches has a verdict.
pub open spec fn settle_fits<C: Currency>(
    s: ModerationView,
    cfg: Config,
    content_id: ContentId,
    tiers: Seq<Tiers>,
    consensus: ReportStatus,
    is_reporter: bool,
    reporter: AccountId,
    reportee: AccountId,
    final_status: Option<ReportStatus>,
) -> bool {
    forall|k: int|
        0 <= k < tiers.len() ==> {
            let (s1, r1) = #[trigger] settle_tiers::<C>(
                s,
                cfg,
                content_id,
                tiers.take(k),
                consensus,
                is_reporter,
                reporter,
                reportee,
                final_status,
            );
            r1 is Ok ==> s1.verdicts.contains_key(verdict_key(content_id, tiers[k]))
        }
}

/// The reportee's collateral taken into the vault when the reportee is the
/// deciding side; nothing when the reporter is.
pub open spec fn forfeit_step<C: Currency>(s: ModerationView, cfg: Config, content_id: ContentId, is_reporter: bool) -> Step<()> {
    if !is_reporter {
        grab_collateral_step::<C>(s, cfg, content_id, cfg.movie_collateral)
    } else {
        (s, Ok(()))
    }
}

/// `r` with `event` as its success value.
pub open spec fn with_event(r: Result<(), DispatchError>, event: Event) -> Result<Event, DispatchError> {
    match r {
        Ok(_) => Ok(event),
        Err(e) => Err(e),
    }
}

/// The reporter or the reportee decides on the verdict of `content_id`:
/// either appealing it (paying a new stake into the vault), or accepting
/// it, which settles every tier and closes the report.
pub open spec fn consensus_decision_spec<C: Currency>(s: ModerationView, cfg: Config, who: AccountId, content_id: ContentId, decision: bool) -> Step<Event> {
    let report = s.reports[content_id];
    let status = report.status;
    if !(status == ReportStatus::MajorityVotedFor || status == ReportStatus::MajorityVotedAgainst) {
        (s, fail(Error::NonexistentReport))
    } else {
        match reporter_or_reportee(s, who, content_id) {
            Err(e) => (s, Err(e)),
            Ok(is_reporter) => match can_accept_verdict(s, is_reporter, content_id) {
                Err(e) => (s, Err(e)),
                Ok(_) => match tier_data(s, content_id) {
                    Err(e) => (s, Err(e)),
                    Ok(td) => if !decision {
                        if !td.2 {
                            (s, fail(Error::ReportAppealLimitReached))
                        } else {
                            match report_pool(cfg, cfg.total_tier_one_moderators) {
                                Err(e) => (s, Err(e)),
                                Ok(pool) => {
                                    let (s1, r1) = transfer_step::<C>(s, who, cfg.pallet_account, pool.0);
                                    if r1 is Err {
                                        (s1, with_event(r1, Event::ReportAppealed(content_id)))
                                    } else {
                                        let (s2, r2) = update_status_step(s1, content_id, status_on_appeal(is_reporter));
                                        (s2, with_event(r2, Event::ReportAppealed(content_id)))
                                    }
                                },
                            }
                        }
                    } else {
                        let closed = status_on_accept(is_reporter);
                        let (s1, r1) = forfeit_step::<C>(s, cfg, content_id, is_reporter);
                        if r1 is Err {
                            (s1, with_event(r1, Event::ReportClosed(content_id, closed)))
                        } else {
                            let (s2, r2) = settle_tiers::<C>(
                                s1,
                                cfg,
                                content_id,
                                td.3,
                                status,
                                is_reporter,
                                report.reporter_id,
                                report.reportee_id,
                                None,
                            );
                            if r2 is Err {
                                (s2, with_event(r2, Event::ReportClosed(content_id, closed)))
                            } else {
                                let (s3, r3) = update_status_step(s2, content_id, closed);
                                (s3, with_event(r3, Event::ReportClosed(content_id, closed)))
                            }
                        }
                    },
                },
            },
        }
    }
}

/// The report exists, and when the verdict is accepted every tier reached
/// while settling has a verdict.
pub open spec fn consensus_decision_fits<C: Currency>(s: ModerationView, cfg: Config, who: AccountId, content_id: ContentId, decision: bool) -> bool {
    &&& s.reports.contains_key(content_id)
    &&& {
        let report = s.reports[content_id];
        let status = report.status;
        let is_reporter = reporter_or_reportee(s, who, content_id)->Ok_0;
        let td = tier_data(s, content_id)->Ok_0;
        let (s1, r1) = forfeit_step::<C>(s, cfg, content_id, is_reporter);
        (decision && (status == ReportStatus::MajorityVotedFor || status == ReportStatus::MajorityVotedAgainst)
            && reporter_or_reportee(s, who, content_id) is Ok && can_accept_verdict(s, is_reporter, content_id) is Ok
            && tier_data(s, content_id) is Ok && r1 is Ok) ==> settle_fits::<C>(
            s1,
            cfg,
            content_id,
            td.3,
            status,
            is_reporter,
            report.reporter_id,
            report.reportee_id,
            None,
        )
    }
}

/// The reporter or the reportee of `content_id` decides on an appeal of the
/// other side: `decision == false` refuses it, which settles every tier
/// (giving the report its final status) and refunds the appellant's stake
/// to the deciding side's counterpart from the vault; `decision == true`
/// accepts it, the deciding side pays a new stake into the vault, a verdict
/// of the next tier is opened and moderators are drafted for it.
pub open spec fn appeal_decision_spec<C: Currency>(
    s: ModerationView,
    cfg: Config,
    reputation: u32,
    who: AccountId,
    content_id: ContentId,
    decision: bool,
) -> Step<Event> {
    let report = s.reports[content_id];
    let status = report.status;
    if !(status == ReportStatus::AppealedByReporter || status == ReportStatus::AppealedByReportee) {
        (s, fail(Error::NonexistentReport))
    } else {
        match reporter_or_reportee(s, who, content_id) {
            Err(e) => (s, Err(e)),
            Ok(is_reporter) => match can_accept_appeal(s, is_reporter, content_id) {
                Err(e) => (s, Err(e)),
                Ok(_) => match tier_data(s, content_id) {
                    Err(e) => (s, Err(e)),
                    Ok(td) => if !decision {
                        let refused = Event::ReportAppealRefused(content_id);
                        let (s1, r1) = forfeit_step::<C>(s, cfg, content_id, is_reporter);
                        if r1 is Err {
                            (s1, with_event(r1, refused))
                        } else {
                            let (s2, r2) = settle_tiers::<C>(
                                s1,
                                cfg,
                                content_id,
                                td.3,
                                status,
                                is_reporter,
                                report.reporter_id,
                                report.reportee_id,
                                Some(status_on_accept(is_reporter)),
                            );
                            if r2 is Err {
                                (s2, with_event(r2, refused))
                            } else {
                                match report_pool(cfg, cfg.total_tier_one_moderators) {
                                    Err(e) => (s2, Err(e)),
                                    Ok(fee) => {
                                        let payee = if is_reporter {
                                            report.reportee_id
                                        } else {
                                            report.reporter_id
                                        };
                                        let (s3, r3) = transfer_step::<C>(s2, cfg.pallet_account, payee, fee.0);
                                        (s3, with_event(r3, refused))
                                    },
                                }
                            }
                        }
                    } else {
                        let accepted = Event::ReportAppealAccepted(content_id);
                        match report_pool(cfg, cfg.total_tier_one_moderators) {
                            Err(e) => (s, Err(e)),
                            Ok(pool) => {
                                let payer = if is_reporter {
                                    report.reporter_id
                                } else {
                                    report.reportee_id
                                };
                                let (s1, r1) = transfer_step::<C>(s, payer, cfg.pallet_account, pool.0);
                                if r1 is Err {
                                    (s1, with_event(r1, accepted))
                                } else {
                                    let (s2, r2) = moderator_btree_step(s1, cfg, reputation);
                                    if r2 is Err {
                                        (s2, Err(r2->Err_0))
                                    } else {
                                        let s3 = create_verdict_state(s2, cfg, content_id, td.1, pool.1);
                                        let (m4, r4) = assign_reports(s3.moderators, drafted(s2, cfg), content_id);
                                        let s4 = ModerationView { moderators: m4, ..s3 };
                                        if r4 is Err {
                                            (s4, with_event(r4, accepted))
                                        } else {
                                            let (s5, r5) = update_status_step(s4, content_id, ReportStatus::InResolution);
                                            (s5, with_event(r5, accepted))
                                        }
                                    }
                                }
                            },
                        }
                    },
                },
            },
        }
    }
}

/// The report exists; when the appeal is refused every tier reached while
/// settling has a verdict, and when it is accepted every drafted moderator
/// reached has room for the report.
pub open spec fn appeal_decision_fits<C: Currency>(
    s: ModerationView,
    cfg: Config,
    reputation: u32,
    who: AccountId,
    content_id: ContentId,
    decision: bool,
) -> bool {
    &&& s.reports.contains_key(content_id)
    &&& {
        let report = s.reports[content_id];
        let status = report.status;
        let is_reporter = reporter_or_reportee(s, who, content_id)->Ok_0;
        let td = tier_data(s, content_id)->Ok_0;
        let reached = (status == ReportStatus::AppealedByReporter || status == ReportStatus::AppealedByReportee)
            && reporter_or_reportee(s, who, content_id) is Ok && can_accept_appeal(s, is_reporter, content_id) is Ok
            && tier_data(s, content_id) is Ok;
        let (s1, r1) = forfeit_step::<C>(s, cfg, content_id, is_reporter);
        let pool = report_pool(cfg, cfg.total_tier_one_moderators)->Ok_0;
        let payer = if is_reporter {
            report.reporter_id
        } else {
            report.reportee_id
        };
        let (t1, q1) = transfer_step::<C>(s, payer, cfg.pallet_account, pool.0);
        &&& (reached && !decision && r1 is Ok) ==> settle_fits::<C>(
            s1,
            cfg,
            content_id,
            td.3,
            status,
            is_reporter,
            report.reporter_id,
            report.reportee_id,
            Some(status_on_accept(is_reporter)),
        )
        &&& (reached && decision && report_pool(cfg, cfg.total_tier_one_moderators) is Ok && q1 is Ok
            && moderator_btree_step(t1, cfg, reputation).1 is Ok) ==> assign_fits(
            s.moderators,
            drafted(s, cfg),
            content_id,
            cfg.max_reports_by_moderator,
        )
    }
}

pub proof fn lemma_settle_stops<C: Currency>(
    s: ModerationView,
    cfg: Config,
    content_id: ContentId,
    tiers: Seq<Tiers>,
    consensus: ReportStatus,
    is_reporter: bool,
    reporter: AccountId,
    reportee: AccountId,
    final_status: Option<ReportStatus>,
    k: int,
)
    requires
        0 <= k <= tiers.len(),
        settle_tiers::<C>(s, cfg, content_id, tiers.take(k), consensus, is_reporter, reporter, reportee, final_status).1 is Err,
    ensures
        settle_tiers::<C>(s, cfg, content_id, tiers, consensus, is_reporter, reporter, reportee, final_status)
            == settle_tiers::<C>(s, cfg, content_id, tiers.take(k), consensus, is_reporter, reporter, reportee, final_status),
    decreases tiers.len() - k,
{
    if k < tiers.len() {
        assert(tiers.take(k + 1).drop_last() == tiers.take(k));
        lemma_settle_stops::<C>(s, cfg, content_id, tiers, consensus, is_reporter, reporter, reportee, final_status, k + 1);
    } else {
        assert(tiers.take(k) == tiers);
    }
}

// ----- folds stop at their first failure -----

pub proof fn lemma_assign_stops(m: Map<AccountId, ModeratorView>, list: Seq<AccountId>, c: ContentId, k: int)
    requires
        0 <= k <= list.len(),
        assign_reports(m, list.take(k), c).1 is Err,
    ensures
        assign_reports(m, list, c) == assign_reports(m, list.take(k), c),
    decreases list.len() - k,
{
    if k < list.len() {
        assert(list.take(k + 1).drop_last() == list.take(k));
        lemma_assign_stops(m, list, c, k + 1);
    } else {
        assert(list.take(k) == list);
    }
}

pub proof fn lemma_credit_stops(m: Map<AccountId, ModeratorView>, list: Seq<AccountId>, reward: Balance, k: int)
    requires
        0 <= k <= list.len(),
        credit_voters(m, list.take(k), reward).1 is Err,
    ensures
        credit_voters(m, list, reward) == credit_voters(m, list.take(k), reward),
    decreases list.len() - k,
{
    if k < list.len() {
        assert(list.take(k + 1).drop_last() == list.take(k));
        lemma_credit_stops(m, list, reward, k + 1);
    } else {
        assert(list.take(k) == list);
    }
}

pub proof fn lemma_debit_stops(m: Map<AccountId, ModeratorView>, list: Seq<AccountId>, fee: Balance, k: int)
    requires
        0 <= k <= list.len(),
        debit_voters(m, list.take(k), fee).1 is Err,
    ensures
        debit_voters(m, list, fee) == debit_voters(m, list.take(k), fee),
    decreases list.len() - k,
{
    if k < list.len() {
        assert(list.take(k + 1).drop_last() == list.take(k));
        lemma_debit_stops(m, list, fee, k + 1);
    } else {
        assert(list.take(k) == list);
    }
}

} // verus!
