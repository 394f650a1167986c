//! Properties that hold across calls of the moderation module.
use vstd::prelude::*;

use crate::currency::{lemma_ledger_round_trip, lemma_transfer_conserves, Currency, Ledger};
use crate::moderation::spec::{
    apply_for_moderation_spec, appeal_decision_spec, claim_reward_step, consensus_decision_spec,
    create_report_spec, grab_collateral_step, majority_voter_reward, new_moderator, other_content,
    report_pool, reportee_reward, reporter_reward, submit_vote_spec, suspend_moderation_spec,
    create_vote_step, credit_voters, deallocate_step, debit_voters, forfeit_step, moderator_fee, status_on_accept, settle_tier, settle_tiers, tier_data, transfer_step,
    voters_by_vote, vote_consensus, assign_reports, drafted, votes_with, voters,
};
use crate::moderation::types::{
    fail, Config, ContentId, ContentType, Error, Event, InfringimentType, ModerationView,
    ModeratorView, ReportStatus, ReportView, Tiers, verdict_key, OutcomeView, Vote, VoteChoice,
    tier_index_spec,
};
use crate::system::{AccountId, Balance};

verus! {

/// An account that registered as moderator cannot register again.
pub proof fn lemma_register_once<C: Currency>(s: ModerationView, cfg: Config, reputation: u32, who: AccountId)
    requires
        apply_for_moderation_spec::<C>(s, cfg, reputation, who).1 is Ok,
    ensures
        ({
            let after = apply_for_moderation_spec::<C>(s, cfg, reputation, who).0;
            let logged = ModerationView { events: s.events.push(Event::ModeratorRegistered(who)), ..after };
            apply_for_moderation_spec::<C>(logged, cfg, reputation, who) == (
                logged,
                fail::<()>(Error::AlreadyRegisteredAsModerator),
            )
        }),
{
}

/// Content that was reported cannot be reported again while its report is
/// stored, whoever reports it.
pub proof fn lemma_report_once<C: Currency>(
    s: ModerationView,
    cfg: Config,
    reputation: u32,
    who: AccountId,
    content_id: ContentId,
    reportee_id: AccountId,
    content_type: ContentType,
    infringiment: InfringimentType,
    justification: Seq<u8>,
    other: AccountId,
    other_reportee: AccountId,
    other_type: ContentType,
    other_infringiment: InfringimentType,
    other_justification: Seq<u8>,
)
    requires
        create_report_spec::<C>(s, cfg, reputation, who, content_id, reportee_id, content_type, infringiment, justification).1 is Ok,
    ensures
        ({
            let after = create_report_spec::<C>(
                s,
                cfg,
                reputation,
                who,
                content_id,
                reportee_id,
                content_type,
                infringiment,
                justification,
            ).0;
            create_report_spec::<C>(
                after,
                cfg,
                reputation,
                other,
                content_id,
                other_reportee,
                other_type,
                other_infringiment,
                other_justification,
            ).1 == fail::<()>(Error::ReportAlreadyOngoing)
        }),
{
}

/// A moderator votes at most once on a report: after a vote, the report is
/// no longer assigned to the moderator, so a second vote is refused.
pub proof fn lemma_vote_once(s: ModerationView, who: AccountId, content_id: ContentId, vote: VoteChoice, again: VoteChoice)
    requires
        s.moderators.contains_key(who),
        submit_vote_spec(s, who, content_id, vote).1 is Ok,
    ensures
        ({
            let after = submit_vote_spec(s, who, content_id, vote).0;
            &&& after.moderators.contains_key(who)
            &&& submit_vote_spec(after, who, content_id, again).1 == fail::<()>(Error::ModeratorNotDraftedForReport)
        }),
{
    let assigned = s.moderators[who].assigned_reports;
    let kept = assigned.filter(other_content(content_id));
    assert(!kept.contains(content_id)) by {
        if kept.contains(content_id) {
            let k = choose|k: int| 0 <= k < kept.len() && kept[k] == content_id;
            assigned.lemma_filter_pred(other_content(content_id), k);
        }
    }
}

/// The reporter's and the reportee's rewards together never exceed the pool
/// they are taken from.
pub proof fn lemma_side_rewards_within_pool(pool: Balance)
    ensures
        reporter_reward(pool) + reportee_reward(pool) <= pool,
        reportee_reward(pool) <= reporter_reward(pool),
{
}

/// The majority voters of a tier together never receive more than the
/// tier's pool.
pub proof fn lemma_majority_rewards_within_pool(cfg: Config, pool: Balance, voters: u32)
    requires
        majority_voter_reward(cfg, pool, voters) is Ok,
    ensures
        majority_voter_reward(cfg, pool, voters)->Ok_0 * voters <= pool,
{
    let share = pool / (voters as Balance);
    let reward = majority_voter_reward(cfg, pool, voters)->Ok_0;
    assert(reward <= share);
    assert(share * voters <= pool) by (nonlinear_arith)
        requires
            share == pool / (voters as Balance),
            voters > 0,
    ;
    assert(reward * voters <= share * voters) by (nonlinear_arith)
        requires
            reward <= share,
    ;
}

/// Claiming rewards never creates tokens: the claimed reward and the stake
/// left add up to the stake before, and the stake left is the minimum one
/// whenever something is claimed.
pub proof fn lemma_claim_conserves_stake(s: ModerationView, cfg: Config, who: AccountId)
    requires
        claim_reward_step(s, cfg, who).1 is Ok,
    ensures
        ({
            let (after, r) = claim_reward_step(s, cfg, who);
            &&& after.moderators.contains_key(who)
            &&& after.moderators[who].collateral_tokens + r->Ok_0 == s.moderators[who].collateral_tokens
            &&& r->Ok_0 > 0 ==> after.moderators[who].collateral_tokens == cfg.minimum_tokens_for_moderation
            &&& after.moderators[who].assigned_reports == s.moderators[who].assigned_reports
        }),
{
}

/// A transfer through the balances module that succeeds moves exactly the
/// amount from one free balance to the other and changes nothing else.
pub proof fn lemma_transfer_step_moves<C: Currency>(s: ModerationView, from: AccountId, to: AccountId, amount: Balance)
    requires
        transfer_step::<C>(s, from, to, amount).1 is Ok,
    ensures
        ({
            let after = transfer_step::<C>(s, from, to, amount).0;
            &&& s.ledger.moved_to(after.ledger, from, to, amount)
            &&& after == ModerationView { ledger: after.ledger, ..s }
        }),
{
    if from != to && amount != 0 {
        C::lemma_transfer_within_balances(s.ledger, from, to, amount);
    }
    lemma_transfer_conserves(s.ledger, from, to, amount);
}

/// Registering as moderator moves the minimum stake from the new moderator
/// into the vault.
pub proof fn lemma_registration_moves_stake<C: Currency>(s: ModerationView, cfg: Config, reputation: u32, who: AccountId)
    requires
        apply_for_moderation_spec::<C>(s, cfg, reputation, who).1 is Ok,
    ensures
        ({
            let after = apply_for_moderation_spec::<C>(s, cfg, reputation, who).0;
            &&& s.ledger.moved_to(after.ledger, who, cfg.pallet_account, cfg.minimum_tokens_for_moderation)
            &&& after.moderators == s.moderators.insert(who, new_moderator(cfg))
        }),
{
    lemma_transfer_step_moves::<C>(s, who, cfg.pallet_account, cfg.minimum_tokens_for_moderation);
}

/// Reporting content moves the moderators' stake of the report from the
/// reporter into the vault.
pub proof fn lemma_report_moves_stake<C: Currency>(
    s: ModerationView,
    cfg: Config,
    reputation: u32,
    who: AccountId,
    content_id: ContentId,
    reportee_id: AccountId,
    content_type: ContentType,
    infringiment: InfringimentType,
    justification: Seq<u8>,
)
    requires
        create_report_spec::<C>(s, cfg, reputation, who, content_id, reportee_id, content_type, infringiment, justification).1 is Ok,
    ensures
        s.ledger.moved_to(
            create_report_spec::<C>(s, cfg, reputation, who, content_id, reportee_id, content_type, infringiment, justification).0.ledger,
            who,
            cfg.pallet_account,
            report_pool(cfg, cfg.total_tier_one_moderators)->Ok_0.0,
        ),
{
    lemma_transfer_step_moves::<C>(s, who, cfg.pallet_account, report_pool(cfg, cfg.total_tier_one_moderators)->Ok_0.0);
}

/// Appealing a verdict moves a new moderators' stake from the appellant into
/// the vault.
pub proof fn lemma_appeal_moves_stake<C: Currency>(s: ModerationView, cfg: Config, who: AccountId, content_id: ContentId)
    requires
        consensus_decision_spec::<C>(s, cfg, who, content_id, false).1 is Ok,
    ensures
        s.ledger.moved_to(
            consensus_decision_spec::<C>(s, cfg, who, content_id, false).0.ledger,
            who,
            cfg.pallet_account,
            report_pool(cfg, cfg.total_tier_one_moderators)->Ok_0.0,
        ),
{
    lemma_transfer_step_moves::<C>(s, who, cfg.pallet_account, report_pool(cfg, cfg.total_tier_one_moderators)->Ok_0.0);
}

/// Accepting an appeal moves a new moderators' stake from the deciding side
/// into the vault, and takes the report to the tier that follows its current
/// one (tier three stays the last).
pub proof fn lemma_accepted_appeal_moves_on<C: Currency>(
    s: ModerationView,
    cfg: Config,
    reputation: u32,
    who: AccountId,
    content_id: ContentId,
)
    requires
        appeal_decision_spec::<C>(s, cfg, reputation, who, content_id, true).1 is Ok,
    ensures
        ({
            let after = appeal_decision_spec::<C>(s, cfg, reputation, who, content_id, true).0;
            let report = s.reports[content_id];
            let payer = if who == report.reportee_id {
                report.reportee_id
            } else {
                report.reporter_id
            };
            &&& s.ledger.moved_to(
                after.ledger,
                payer,
                cfg.pallet_account,
                report_pool(cfg, cfg.total_tier_one_moderators)->Ok_0.0,
            )
            &&& tier_data(after, content_id) is Ok
            &&& tier_data(after, content_id)->Ok_0.0 == tier_data(s, content_id)->Ok_0.1
            &&& after.reports[content_id].status == ReportStatus::InResolution
        }),
{
    let report = s.reports[content_id];
    let payer = if who == report.reportee_id {
        report.reportee_id
    } else {
        report.reporter_id
    };
    lemma_transfer_step_moves::<C>(s, payer, cfg.pallet_account, report_pool(cfg, cfg.total_tier_one_moderators)->Ok_0.0);
}

/// A moderator leaving gets its whole stake back from the vault.
pub proof fn lemma_suspension_refunds_stake<C: Currency>(s: ModerationView, cfg: Config, who: AccountId)
    requires
        suspend_moderation_spec::<C>(s, cfg, who).1 is Ok,
    ensures
        ({
            let after = suspend_moderation_spec::<C>(s, cfg, who).0;
            &&& s.ledger.moved_to(after.ledger, cfg.pallet_account, who, s.moderators[who].collateral_tokens)
            &&& after.moderators == s.moderators.remove(who)
        }),
{
    lemma_transfer_step_moves::<C>(s, cfg.pallet_account, who, s.moderators[who].collateral_tokens);
}

/// Taking the reportee's collateral unreserves what it can of it and moves
/// the whole collateral from the reportee's free balance into the vault.
pub proof fn lemma_collateral_taken<C: Currency>(s: ModerationView, cfg: Config, content_id: ContentId, collateral: Balance)
    requires
        grab_collateral_step::<C>(s, cfg, content_id, collateral).1 is Ok,
    ensures
        ({
            let after = grab_collateral_step::<C>(s, cfg, content_id, collateral).0;
            let reportee = s.reports[content_id].reportee_id;
            let unreserved = s.ledger.after_unreserve(reportee, collateral);
            &&& unreserved.moved_to(after.ledger, reportee, cfg.pallet_account, collateral)
            &&& after.ledger.reserved_of(reportee) == s.ledger.reserved_of(reportee) - s.ledger.unreserved_amount(
                reportee,
                collateral,
            )
            &&& reportee != cfg.pallet_account ==> after.ledger.free_of(cfg.pallet_account) == s.ledger.free_of(
                cfg.pallet_account,
            ) + collateral
        }),
{
    let reportee = s.reports[content_id].reportee_id;
    let unreserved = ModerationView { ledger: s.ledger.after_unreserve(reportee, collateral), ..s };
    lemma_transfer_step_moves::<C>(unreserved, reportee, cfg.pallet_account, collateral);
    if reportee != cfg.pallet_account {
        assert(unreserved.ledger.free_of(cfg.pallet_account) == s.ledger.free_of(cfg.pallet_account));
    }
}

/// With the module's own ledger, an amount paid into the vault can be paid
/// back, provided the vault held at least the minimum balance: both
/// transfers succeed and every free balance is as it was.
pub proof fn lemma_vault_round_trip(s: ModerationView, vault: AccountId, who: AccountId, amount: Balance)
    requires
        transfer_step::<Ledger>(s, who, vault, amount).1 is Ok,
        s.ledger.free_of(vault) >= s.ledger.minimum_balance,
    ensures
        ({
            let s1 = transfer_step::<Ledger>(s, who, vault, amount).0;
            let s2 = transfer_step::<Ledger>(s1, vault, who, amount).0;
            &&& transfer_step::<Ledger>(s1, vault, who, amount).1 is Ok
            &&& forall|a: AccountId| #[trigger] s2.ledger.free_of(a) == s.ledger.free_of(a)
        }),
{
    lemma_ledger_round_trip(s.ledger, who, vault, amount);
}

// ----- settling a report -----

/// How often `a` occurs in `list`.
pub open spec fn count_in(list: Seq<AccountId>, a: AccountId) -> nat
    decreases list.len(),
{
    if list.len() == 0 {
        0
    } else {
        count_in(list.drop_last(), a) + if list.last() == a {
            1nat
        } else {
            0nat
        }
    }
}

/// The account the vault pays when the side `is_reporter` gives in: the
/// reportee when the reporter does, the reporter otherwise.
pub open spec fn settled_payee(is_reporter: bool, reporter: AccountId, reportee: AccountId) -> AccountId {
    if is_reporter {
        reportee
    } else {
        reporter
    }
}

/// What the vault pays of a tier's pool when the side `is_reporter` gives in.
pub open spec fn settled_reward(pool: Balance, is_reporter: bool) -> Balance {
    if is_reporter {
        reportee_reward(pool)
    } else {
        reporter_reward(pool)
    }
}

/// What the vault pays over `tiers` of the report on `content_id`.
pub open spec fn tiers_payout(
    verdicts: Map<(ContentId, u8), OutcomeView>,
    content_id: ContentId,
    tiers: Seq<Tiers>,
    is_reporter: bool,
) -> int
    decreases tiers.len(),
{
    if tiers.len() == 0 {
        0
    } else {
        tiers_payout(verdicts, content_id, tiers.drop_last(), is_reporter) + settled_reward(
            verdicts[verdict_key(content_id, tiers.last())].staked_tokens,
            is_reporter,
        )
    }
}

/// How the stake of moderator `a` changes when one tier is settled: each of
/// its votes with the majority earns the majority reward, each against it
/// costs the moderator fee.
pub open spec fn tier_stake_change(
    verdicts: Map<(ContentId, u8), OutcomeView>,
    cfg: Config,
    content_id: ContentId,
    tier: Tiers,
    consensus: ReportStatus,
    a: AccountId,
) -> int {
    let o = verdicts[verdict_key(content_id, tier)];
    let (majority, minority) = voters_by_vote(o.votes, consensus);
    let reward = majority_voter_reward(cfg, o.staked_tokens, majority.len() as u32)->Ok_0;
    let fee = moderator_fee(cfg)->Some_0;
    reward * count_in(majority, a) - fee * count_in(minority, a)
}

/// How the stake of moderator `a` changes over `tiers`.
pub open spec fn tiers_stake_change(
    verdicts: Map<(ContentId, u8), OutcomeView>,
    cfg: Config,
    content_id: ContentId,
    tiers: Seq<Tiers>,
    consensus: ReportStatus,
    a: AccountId,
) -> int
    decreases tiers.len(),
{
    if tiers.len() == 0 {
        0
    } else {
        tiers_stake_change(verdicts, cfg, content_id, tiers.drop_last(), consensus, a) + tier_stake_change(
            verdicts,
            cfg,
            content_id,
            tiers.last(),
            consensus,
            a,
        )
    }
}

/// Rewarding voters adds the reward to the stake of a moderator once for
/// each time it occurs among them, and changes nothing else.
pub proof fn lemma_credit_adds(m: Map<AccountId, ModeratorView>, voters: Seq<AccountId>, reward: Balance)
    requires
        credit_voters(m, voters, reward).1 is Ok,
    ensures
        ({
            let after = credit_voters(m, voters, reward).0;
            &&& after.dom() == m.dom()
            &&& forall|a: AccountId| #[trigger] after.contains_key(a) ==> {
                &&& after[a].collateral_tokens == m[a].collateral_tokens + reward * count_in(voters, a)
                &&& after[a].assigned_reports == m[a].assigned_reports
            }
        }),
    decreases voters.len(),
{
    if voters.len() > 0 {
        lemma_credit_adds(m, voters.drop_last(), reward);
        let m1 = credit_voters(m, voters.drop_last(), reward).0;
        let after = credit_voters(m, voters, reward).0;
        assert(after.dom() =~= m.dom());
        assert forall|a: AccountId| #[trigger] after.contains_key(a) implies after[a].collateral_tokens
            == m[a].collateral_tokens + reward * count_in(voters, a) by {
            let c = count_in(voters.drop_last(), a);
            assert(reward * (c + 1) == reward * c + reward) by (nonlinear_arith);
        }
    } else {
        assert forall|a: AccountId| #[trigger] m.contains_key(a) implies m[a].collateral_tokens
            == m[a].collateral_tokens + reward * count_in(voters, a) by {
            assert(reward * 0 == 0) by (nonlinear_arith);
        }
    }
}

/// Slashing voters takes the fee from the stake of a moderator once for each
/// time it occurs among them, and changes nothing else.
pub proof fn lemma_debit_takes(m: Map<AccountId, ModeratorView>, voters: Seq<AccountId>, fee: Balance)
    requires
        debit_voters(m, voters, fee).1 is Ok,
    ensures
        ({
            let after = debit_voters(m, voters, fee).0;
            &&& after.dom() == m.dom()
            &&& forall|a: AccountId| #[trigger] after.contains_key(a) ==> {
                &&& after[a].collateral_tokens == m[a].collateral_tokens - fee * count_in(voters, a)
                &&& after[a].assigned_reports == m[a].assigned_reports
            }
        }),
    decreases voters.len(),
{
    if voters.len() > 0 {
        lemma_debit_takes(m, voters.drop_last(), fee);
        let m1 = debit_voters(m, voters.drop_last(), fee).0;
        let after = debit_voters(m, voters, fee).0;
        assert(after.dom() =~= m.dom());
        assert forall|a: AccountId| #[trigger] after.contains_key(a) implies after[a].collateral_tokens
            == m[a].collateral_tokens - fee * count_in(voters, a) by {
            let c = count_in(voters.drop_last(), a);
            assert(fee * (c + 1) == fee * c + fee) by (nonlinear_arith);
        }
    } else {
        assert forall|a: AccountId| #[trigger] m.contains_key(a) implies m[a].collateral_tokens
            == m[a].collateral_tokens - fee * count_in(voters, a) by {
            assert(fee * 0 == 0) by (nonlinear_arith);
        }
    }
}

/// Settling one tier pays the tier's reward from the vault to the side that
/// did not give in, rewards the majority voters and slashes the minority
/// ones, and changes no verdict.
pub proof fn lemma_settle_tier_effect<C: Currency>(
    s: ModerationView,
    cfg: Config,
    content_id: ContentId,
    tier: Tiers,
    consensus: ReportStatus,
    is_reporter: bool,
    reporter: AccountId,
    reportee: AccountId,
    final_status: Option<ReportStatus>,
)
    requires
        settle_tier::<C>(s, cfg, content_id, tier, consensus, is_reporter, reporter, reportee, final_status).1 is Ok,
    ensures
        ({
            let after = settle_tier::<C>(s, cfg, content_id, tier, consensus, is_reporter, reporter, reportee, final_status).0;
            &&& after.verdicts == s.verdicts
            &&& s.ledger.moved_to(
                after.ledger,
                cfg.pallet_account,
                settled_payee(is_reporter, reporter, reportee),
                settled_reward(s.verdicts[verdict_key(content_id, tier)].staked_tokens, is_reporter),
            )
            &&& after.moderators.dom() == s.moderators.dom()
            &&& forall|a: AccountId| #[trigger] after.moderators.contains_key(a) ==> {
                &&& after.moderators[a].collateral_tokens == s.moderators[a].collateral_tokens + tier_stake_change(
                    s.verdicts,
                    cfg,
                    content_id,
                    tier,
                    consensus,
                    a,
                )
                &&& after.moderators[a].assigned_reports == s.moderators[a].assigned_reports
            }
        }),
{
    let key = verdict_key(content_id, tier);
    let (majority, minority) = voters_by_vote(s.verdicts[key].votes, consensus);
    let pool = s.verdicts[key].staked_tokens;
    let reward = majority_voter_reward(cfg, pool, majority.len() as u32)->Ok_0;
    let fee = moderator_fee(cfg)->Some_0;
    lemma_credit_adds(s.moderators, majority, reward);
    let m1 = credit_voters(s.moderators, majority, reward).0;
    lemma_debit_takes(m1, minority, fee);
    let s2 = ModerationView { moderators: debit_voters(m1, minority, fee).0, ..s };
    lemma_transfer_step_moves::<C>(
        s2,
        cfg.pallet_account,
        settled_payee(is_reporter, reporter, reportee),
        settled_reward(pool, is_reporter),
    );
}

/// Settling the tiers of a report pays, from the vault to the side that did
/// not give in, the sum of the tiers' rewards, and changes the stake of each
/// moderator by the sum of what each tier earned or cost it; no verdict
/// changes.
pub proof fn lemma_settlement_effect<C: Currency>(
    s: ModerationView,
    cfg: Config,
    content_id: ContentId,
    tiers: Seq<Tiers>,
    consensus: ReportStatus,
    is_reporter: bool,
    reporter: AccountId,
    reportee: AccountId,
    final_status: Option<ReportStatus>,
)
    requires
        settle_tiers::<C>(s, cfg, content_id, tiers, consensus, is_reporter, reporter, reportee, final_status).1 is Ok,
    ensures
        ({
            let after = settle_tiers::<C>(s, cfg, content_id, tiers, consensus, is_reporter, reporter, reportee, final_status).0;
            let payee = settled_payee(is_reporter, reporter, reportee);
            let payout = tiers_payout(s.verdicts, content_id, tiers, is_reporter);
            &&& after.verdicts == s.verdicts
            &&& payee != cfg.pallet_account ==> {
                &&& after.ledger.free_of(payee) == s.ledger.free_of(payee) + payout
                &&& after.ledger.free_of(cfg.pallet_account) == s.ledger.free_of(cfg.pallet_account) - payout
            }
            &&& forall|a: AccountId| a != payee && a != cfg.pallet_account ==> #[trigger] after.ledger.free_of(a)
                == s.ledger.free_of(a)
            &&& forall|a: AccountId| #[trigger] after.ledger.reserved_of(a) == s.ledger.reserved_of(a)
            &&& after.moderators.dom() == s.moderators.dom()
            &&& forall|a: AccountId| #[trigger] after.moderators.contains_key(a) ==> {
                &&& after.moderators[a].collateral_tokens == s.moderators[a].collateral_tokens + tiers_stake_change(
                    s.verdicts,
                    cfg,
                    content_id,
                    tiers,
                    consensus,
                    a,
                )
                &&& after.moderators[a].assigned_reports == s.moderators[a].assigned_reports
            }
        }),
    decreases tiers.len(),
{
    if tiers.len() > 0 {
        let (s1, r1) = settle_tiers::<C>(s, cfg, content_id, tiers.drop_last(), consensus, is_reporter, reporter, reportee, final_status);
        lemma_settlement_effect::<C>(s, cfg, content_id, tiers.drop_last(), consensus, is_reporter, reporter, reportee, final_status);
        lemma_settle_tier_effect::<C>(s1, cfg, content_id, tiers.last(), consensus, is_reporter, reporter, reportee, final_status);
    }
}

/// Accepting a verdict takes the reportee's collateral into the vault when
/// the reportee gives in, then settles every tier the report went through:
/// the side that did not give in is paid the tiers' rewards from the vault,
/// each moderator's stake changes by what its votes earned or cost, and the
/// report is closed.
pub proof fn lemma_accepted_verdict_settles<C: Currency>(s: ModerationView, cfg: Config, who: AccountId, content_id: ContentId)
    requires
        consensus_decision_spec::<C>(s, cfg, who, content_id, true).1 is Ok,
    ensures
        ({
            let after = consensus_decision_spec::<C>(s, cfg, who, content_id, true).0;
            let report = s.reports[content_id];
            let is_reporter = who != report.reportee_id;
            let forfeited = forfeit_step::<C>(s, cfg, content_id, is_reporter).0;
            let payee = settled_payee(is_reporter, report.reporter_id, report.reportee_id);
            let tiers = tier_data(s, content_id)->Ok_0.3;
            let payout = tiers_payout(s.verdicts, content_id, tiers, is_reporter);
            &&& forfeit_step::<C>(s, cfg, content_id, is_reporter).1 is Ok
            &&& payee != cfg.pallet_account ==> {
                &&& after.ledger.free_of(payee) == forfeited.ledger.free_of(payee) + payout
                &&& after.ledger.free_of(cfg.pallet_account) == forfeited.ledger.free_of(cfg.pallet_account) - payout
            }
            &&& forall|a: AccountId| a != payee && a != cfg.pallet_account ==> #[trigger] after.ledger.free_of(a)
                == forfeited.ledger.free_of(a)
            &&& after.verdicts == s.verdicts
            &&& after.moderators.dom() == s.moderators.dom()
            &&& forall|a: AccountId| #[trigger] after.moderators.contains_key(a) ==> after.moderators[a].collateral_tokens
                == s.moderators[a].collateral_tokens + tiers_stake_change(
                s.verdicts,
                cfg,
                content_id,
                tiers,
                report.status,
                a,
            )
            &&& after.reports[content_id].status == status_on_accept(is_reporter)
        }),
{
    let report = s.reports[content_id];
    let is_reporter = who != report.reportee_id;
    let s1 = forfeit_step::<C>(s, cfg, content_id, is_reporter).0;
    if !is_reporter {
        lemma_collateral_taken::<C>(s, cfg, content_id, cfg.movie_collateral);
    }
    lemma_settlement_effect::<C>(
        s1,
        cfg,
        content_id,
        tier_data(s, content_id)->Ok_0.3,
        report.status,
        is_reporter,
        report.reporter_id,
        report.reportee_id,
        None,
    );
}

/// Refusing an appeal takes the reportee's collateral into the vault when the
/// reportee gives in, settles every tier the report went through (as for an
/// accepted verdict, with the report closed), and refunds the appellant's
/// stake from the vault to the side that did not give in.
pub proof fn lemma_refused_appeal_settles<C: Currency>(
    s: ModerationView,
    cfg: Config,
    reputation: u32,
    who: AccountId,
    content_id: ContentId,
)
    requires
        appeal_decision_spec::<C>(s, cfg, reputation, who, content_id, false).1 is Ok,
    ensures
        ({
            let after = appeal_decision_spec::<C>(s, cfg, reputation, who, content_id, false).0;
            let report = s.reports[content_id];
            let is_reporter = who != report.reportee_id;
            let forfeited = forfeit_step::<C>(s, cfg, content_id, is_reporter).0;
            let payee = settled_payee(is_reporter, report.reporter_id, report.reportee_id);
            let tiers = tier_data(s, content_id)->Ok_0.3;
            let paid = tiers_payout(s.verdicts, content_id, tiers, is_reporter) + report_pool(
                cfg,
                cfg.total_tier_one_moderators,
            )->Ok_0.0;
            &&& forfeit_step::<C>(s, cfg, content_id, is_reporter).1 is Ok
            &&& payee != cfg.pallet_account ==> {
                &&& after.ledger.free_of(payee) == forfeited.ledger.free_of(payee) + paid
                &&& after.ledger.free_of(cfg.pallet_account) == forfeited.ledger.free_of(cfg.pallet_account) - paid
            }
            &&& forall|a: AccountId| a != payee && a != cfg.pallet_account ==> #[trigger] after.ledger.free_of(a)
                == forfeited.ledger.free_of(a)
            &&& after.verdicts == s.verdicts
            &&& after.moderators.dom() == s.moderators.dom()
            &&& forall|a: AccountId| #[trigger] after.moderators.contains_key(a) ==> after.moderators[a].collateral_tokens
                == s.moderators[a].collateral_tokens + tiers_stake_change(
                s.verdicts,
                cfg,
                content_id,
                tiers,
                report.status,
                a,
            )
            &&& after.reports[content_id].status == status_on_accept(is_reporter)
        }),
{
    let report = s.reports[content_id];
    let is_reporter = who != report.reportee_id;
    let s1 = forfeit_step::<C>(s, cfg, content_id, is_reporter).0;
    let payee = settled_payee(is_reporter, report.reporter_id, report.reportee_id);
    if !is_reporter {
        lemma_collateral_taken::<C>(s, cfg, content_id, cfg.movie_collateral);
    }
    let tiers = tier_data(s, content_id)->Ok_0.3;
    lemma_settlement_effect::<C>(
        s1,
        cfg,
        content_id,
        tiers,
        report.status,
        is_reporter,
        report.reporter_id,
        report.reportee_id,
        Some(status_on_accept(is_reporter)),
    );
    let s2 = settle_tiers::<C>(
        s1,
        cfg,
        content_id,
        tiers,
        report.status,
        is_reporter,
        report.reporter_id,
        report.reportee_id,
        Some(status_on_accept(is_reporter)),
    ).0;
    lemma_transfer_step_moves::<C>(s2, cfg.pallet_account, payee, report_pool(cfg, cfg.total_tier_one_moderators)->Ok_0.0);
}

// ----- votes, claims and appeals -----

/// The consensus of a tier is a strict majority of its required votes: the
/// report is voted for exactly when more than half the required votes are for
/// it.
pub proof fn lemma_consensus_is_strict_majority(s: ModerationView, content_id: ContentId, tier: Tiers)
    requires
        s.verdicts.contains_key(verdict_key(content_id, tier)),
    ensures
        ({
            let o = s.verdicts[verdict_key(content_id, tier)];
            vote_consensus(s, content_id, tier) == Ok::<ReportStatus, crate::system::DispatchError>(
                if 2 * o.votes_for > o.required_votes {
                    ReportStatus::MajorityVotedFor
                } else {
                    ReportStatus::MajorityVotedAgainst
                },
            )
        }),
{
    let o = s.verdicts[verdict_key(content_id, tier)];
    let v = o.votes_for as int;
    let r = o.required_votes as int;
    assert((r * 1000) / 2 == r * 500) by (nonlinear_arith)
        requires
            r >= 0,
    ;
    assert(v * 1000 > r * 500 <==> 2 * v > r) by (nonlinear_arith)
        requires
            v >= 0,
            r >= 0,
    ;
}

/// The vote that completes a tier decides the report: its status becomes
/// "voted for" exactly when more than half the required votes of the tier
/// are for it, and "voted against" otherwise.
pub proof fn lemma_last_vote_decides(s: ModerationView, who: AccountId, content_id: ContentId, vote: VoteChoice)
    requires
        submit_vote_spec(s, who, content_id, vote).1 is Ok,
    ensures
        ({
            let after = submit_vote_spec(s, who, content_id, vote).0;
            let tier = tier_data(s, content_id)->Ok_0.0;
            let o = after.verdicts[verdict_key(content_id, tier)];
            &&& tier_data(s, content_id) is Ok
            &&& after.verdicts.contains_key(verdict_key(content_id, tier))
            &&& o.votes.len() == o.required_votes ==> after.reports[content_id].status == if 2 * o.votes_for
                > o.required_votes {
                ReportStatus::MajorityVotedFor
            } else {
                ReportStatus::MajorityVotedAgainst
            }
        }),
{
    let after = submit_vote_spec(s, who, content_id, vote).0;
    let tier = tier_data(s, content_id)->Ok_0.0;
    let s1 = create_vote_step(s, content_id, tier, who, vote).0;
    let s2 = deallocate_step(s1, who, content_id).0;
    if s2.verdicts.contains_key(verdict_key(content_id, tier)) {
        lemma_consensus_is_strict_majority(s2, content_id, tier);
    }
}

/// Claiming rewards pays a moderator exactly the part of its stake above the
/// minimum and leaves the minimum staked, whatever reports are assigned to
/// it; a moderator at or below the minimum gets nothing and keeps its stake.
pub proof fn lemma_claim_pays_the_excess(s: ModerationView, cfg: Config, who: AccountId)
    requires
        s.moderators.contains_key(who),
    ensures
        ({
            let (after, r) = claim_reward_step(s, cfg, who);
            let stake = s.moderators[who].collateral_tokens;
            let min = cfg.minimum_tokens_for_moderation;
            &&& r == Ok::<Balance, crate::system::DispatchError>(if stake > min {
                (stake - min) as Balance
            } else {
                0
            })
            &&& after.moderators.contains_key(who)
            &&& after.moderators[who].collateral_tokens == if stake > min {
                min
            } else {
                stake
            }
            &&& after.moderators[who].assigned_reports == s.moderators[who].assigned_reports
        }),
{
}

/// An appeal of a verdict is recorded as the appellant's: the report becomes
/// appealed by the reporter when the reporter appeals, and by the reportee
/// when the reportee does.
pub proof fn lemma_appeal_names_the_appellant<C: Currency>(s: ModerationView, cfg: Config, who: AccountId, content_id: ContentId)
    requires
        consensus_decision_spec::<C>(s, cfg, who, content_id, false).1 is Ok,
    ensures
        ({
            let after = consensus_decision_spec::<C>(s, cfg, who, content_id, false).0;
            let report = s.reports[content_id];
            &&& who == report.reporter_id || who == report.reportee_id
            &&& after.reports[content_id].status == if who == report.reportee_id {
                ReportStatus::AppealedByReportee
            } else {
                ReportStatus::AppealedByReporter
            }
        }),
{
}

/// When most votes are for the report, only the reportee can accept or
/// appeal the outcome; when most are against it, only the reporter can, and
/// then the reporter is not also the reportee.
pub proof fn lemma_only_the_losing_side_decides<C: Currency>(
    s: ModerationView,
    cfg: Config,
    who: AccountId,
    content_id: ContentId,
    decision: bool,
)
    requires
        consensus_decision_spec::<C>(s, cfg, who, content_id, decision).1 is Ok,
    ensures
        ({
            let report = s.reports[content_id];
            &&& report.status == ReportStatus::MajorityVotedFor || report.status == ReportStatus::MajorityVotedAgainst
            &&& report.status == ReportStatus::MajorityVotedFor ==> who == report.reportee_id
            &&& report.status == ReportStatus::MajorityVotedAgainst ==> who == report.reporter_id && who
                != report.reportee_id
        }),
{
}

/// An appeal is decided by the other side: the reportee decides an appeal of
/// the reporter, and the reporter (not also the reportee) one of the
/// reportee.
pub proof fn lemma_the_other_side_decides_an_appeal<C: Currency>(
    s: ModerationView,
    cfg: Config,
    reputation: u32,
    who: AccountId,
    content_id: ContentId,
    decision: bool,
)
    requires
        appeal_decision_spec::<C>(s, cfg, reputation, who, content_id, decision).1 is Ok,
    ensures
        ({
            let report = s.reports[content_id];
            &&& report.status == ReportStatus::AppealedByReporter || report.status == ReportStatus::AppealedByReportee
            &&& report.status == ReportStatus::AppealedByReporter ==> who == report.reportee_id
            &&& report.status == ReportStatus::AppealedByReportee ==> who == report.reporter_id && who
                != report.reportee_id
        }),
{
}

/// A verdict of the last tier cannot be appealed: an appeal succeeds only
/// while the report has no tier-three verdict.
pub proof fn lemma_no_appeal_beyond_tier_three<C: Currency>(s: ModerationView, cfg: Config, who: AccountId, content_id: ContentId)
    requires
        consensus_decision_spec::<C>(s, cfg, who, content_id, false).1 is Ok,
    ensures
        s.verdicts.contains_key(verdict_key(content_id, Tiers::TierOne)),
        !s.verdicts.contains_key(verdict_key(content_id, Tiers::TierThree)),
{
}

/// A moderator may leave only when no report is assigned to it; it is then
/// no longer a moderator.
pub proof fn lemma_suspension_needs_no_pending_report<C: Currency>(s: ModerationView, cfg: Config, who: AccountId)
    requires
        s.moderators.contains_key(who),
        suspend_moderation_spec::<C>(s, cfg, who).1 is Ok,
    ensures
        s.moderators[who].assigned_reports.len() == 0,
        !suspend_moderation_spec::<C>(s, cfg, who).0.moderators.contains_key(who),
{
}

/// A new moderator starts with the minimum stake, no report, and the default
/// reputation as wallet.
pub proof fn lemma_new_moderator_starts_empty<C: Currency>(s: ModerationView, cfg: Config, reputation: u32, who: AccountId)
    requires
        apply_for_moderation_spec::<C>(s, cfg, reputation, who).1 is Ok,
    ensures
        ({
            let after = apply_for_moderation_spec::<C>(s, cfg, reputation, who).0;
            &&& !s.moderators.contains_key(who)
            &&& after.moderators.contains_key(who)
            &&& after.moderators[who].collateral_tokens == cfg.minimum_tokens_for_moderation
            &&& after.moderators[who].assigned_reports.len() == 0
            &&& after.reputation.contains_key(who)
            &&& after.reputation[who].reputation == reputation
        }),
{
}

/// The moderator fee splits the movie collateral evenly among the tier-one
/// moderators, rounding down; there is none without tier-one moderators.
pub proof fn lemma_fee_splits_the_collateral(cfg: Config)
    ensures
        moderator_fee(cfg) is None <==> cfg.total_tier_one_moderators == 0,
        moderator_fee(cfg) is Some ==> {
            let fee = moderator_fee(cfg)->Some_0;
            let n = cfg.total_tier_one_moderators;
            fee * n <= cfg.movie_collateral < (fee + 1) * n
        },
{
    if cfg.total_tier_one_moderators != 0 {
        let n = cfg.total_tier_one_moderators as int;
        let c = cfg.movie_collateral as int;
        let fee = c / n;
        assert(fee * n <= c < (fee + 1) * n) by (nonlinear_arith)
            requires
                n > 0,
                c >= 0,
                fee == c / n,
        ;
    }
}

/// The reporter's reward is half the pool, rounded down, and the reportee's
/// is what is left of it once a third, rounded down, is taken off as well.
pub proof fn lemma_side_rewards_split_the_pool(pool: Balance)
    ensures
        2 * reporter_reward(pool) <= pool < 2 * reporter_reward(pool) + 2,
        ({
            let third = reporter_reward(pool) - reportee_reward(pool);
            3 * third <= pool < 3 * third + 3
        }),
{
}

/// Each majority voter gets its share of the pool less the moderator fee:
/// with the fee added back, the voters' rewards make up the pool, rounding
/// down; it fails without voters, without tier-one moderators, or when the
/// share is below the fee.
pub proof fn lemma_majority_reward_is_share_less_fee(cfg: Config, pool: Balance, voters: u32)
    ensures
        majority_voter_reward(cfg, pool, voters) is Ok <==> voters > 0 && cfg.total_tier_one_moderators > 0
            && pool / (voters as Balance) >= moderator_fee(cfg)->Some_0,
        majority_voter_reward(cfg, pool, voters) is Ok ==> {
            let r = majority_voter_reward(cfg, pool, voters)->Ok_0;
            let fee = moderator_fee(cfg)->Some_0;
            (r + fee) * voters <= pool < (r + fee + 1) * voters
        },
{
    if voters > 0 && cfg.total_tier_one_moderators > 0 {
        let v = voters as int;
        let p = pool as int;
        let share = p / v;
        assert(share * v <= p < (share + 1) * v) by (nonlinear_arith)
            requires
                v > 0,
                p >= 0,
                share == p / v,
        ;
    }
}

/// The tier a report is in is the highest tier it has a verdict of; an
/// appeal goes to the tier above it (tier three is the last and cannot be
/// appealed), and the tiers it went through are all tiers up to it, in
/// order.
pub proof fn lemma_tier_data_follows_the_highest_verdict(s: ModerationView, content_id: ContentId)
    requires
        tier_data(s, content_id) is Ok,
    ensures
        ({
            let (current, next, appealable, passed) = tier_data(s, content_id)->Ok_0;
            let i = tier_index_spec(current);
            &&& s.verdicts.contains_key(verdict_key(content_id, Tiers::TierOne))
            &&& s.verdicts.contains_key(verdict_key(content_id, current))
            &&& forall|t: Tiers| tier_index_spec(t) > i ==> !s.verdicts.contains_key(#[trigger] verdict_key(content_id, t))
            &&& tier_index_spec(next) == if i < 2 {
                i + 1
            } else {
                2
            }
            &&& appealable <==> i < 2
            &&& passed.len() == i + 1
            &&& forall|k: int| 0 <= k < passed.len() ==> tier_index_spec(#[trigger] passed[k]) == k
        }),
{
    let passed = tier_data(s, content_id)->Ok_0.3;
    assert forall|k: int| 0 <= k < passed.len() implies tier_index_spec(#[trigger] passed[k]) == k by {
    }
}

/// A vote is recorded in the verdict of the report's current tier: the vote
/// is appended, the votes for grow by one exactly when it is for the report,
/// and no other verdict changes.
pub proof fn lemma_vote_is_recorded(s: ModerationView, who: AccountId, content_id: ContentId, vote: VoteChoice)
    requires
        submit_vote_spec(s, who, content_id, vote).1 is Ok,
    ensures
        ({
            let after = submit_vote_spec(s, who, content_id, vote).0;
            let key = verdict_key(content_id, tier_data(s, content_id)->Ok_0.0);
            let o = s.verdicts[key];
            &&& s.verdicts.contains_key(key)
            &&& after.verdicts == s.verdicts.insert(
                key,
                OutcomeView {
                    votes: o.votes.push(Vote { voter: who, is_for: vote }),
                    votes_for: if vote == VoteChoice::For {
                        (o.votes_for + 1) as u32
                    } else {
                        o.votes_for
                    },
                    ..o
                },
            )
            &&& vote == VoteChoice::For ==> o.votes_for + 1 == after.verdicts[key].votes_for
        }),
{
}

/// How many of `votes` are `choice`.
pub open spec fn count_choice(votes: Seq<Vote>, choice: VoteChoice) -> nat
    decreases votes.len(),
{
    if votes.len() == 0 {
        0
    } else {
        count_choice(votes.drop_last(), choice) + if votes.last().is_for == choice {
            1nat
        } else {
            0nat
        }
    }
}

proof fn lemma_filter_counts(votes: Seq<Vote>, choice: VoteChoice)
    ensures
        votes.filter(votes_with(choice)).len() == count_choice(votes, choice),
        forall|i: int|
            0 <= i < votes.filter(votes_with(choice)).len() ==> votes.contains(
                #[trigger] votes.filter(votes_with(choice))[i],
            ) && votes.filter(votes_with(choice))[i].is_for == choice,
    decreases votes.len(),
{
    reveal(Seq::filter);
    if votes.len() > 0 {
        lemma_filter_counts(votes.drop_last(), choice);
        let sub = votes.drop_last().filter(votes_with(choice));
        assert forall|i: int| 0 <= i < sub.len() implies votes.contains(#[trigger] sub[i]) by {
            let j = choose|j: int| 0 <= j < votes.drop_last().len() && votes.drop_last()[j] == sub[i];
            assert(votes[j] == sub[i]);
        }
        assert(votes[votes.len() - 1] == votes.last());
    }
}

/// The voters of `votes` who voted `choice` are exactly that many, and each
/// of them cast such a vote.
proof fn lemma_voters_with(votes: Seq<Vote>, choice: VoteChoice)
    ensures
        ({
            let v = voters(votes.filter(votes_with(choice)));
            &&& v.len() == count_choice(votes, choice)
            &&& forall|i: int| 0 <= i < v.len() ==> votes.contains(Vote { voter: #[trigger] v[i], is_for: choice })
        }),
{
    lemma_filter_counts(votes, choice);
    let f = votes.filter(votes_with(choice));
    let v = voters(f);
    assert forall|i: int| 0 <= i < v.len() implies votes.contains(Vote { voter: #[trigger] v[i], is_for: choice }) by {
        assert(votes.contains(f[i]));
        assert(f[i] == Vote { voter: v[i], is_for: choice });
    }
}

/// The voters with the outcome are those who voted on its side: for the
/// report when it was voted for (or appealed by the reportee), against it
/// when it was voted against (or appealed by the reporter); the voters
/// against the outcome are those who voted the other way. Abstentions are on
/// neither side.
pub proof fn lemma_voters_split_by_side(votes: Seq<Vote>, consensus: ReportStatus)
    requires
        consensus == ReportStatus::MajorityVotedFor || consensus == ReportStatus::AppealedByReportee
            || consensus == ReportStatus::MajorityVotedAgainst || consensus == ReportStatus::AppealedByReporter,
    ensures
        ({
            let (majority, minority) = voters_by_vote(votes, consensus);
            let side = if consensus == ReportStatus::MajorityVotedFor || consensus == ReportStatus::AppealedByReportee {
                VoteChoice::For
            } else {
                VoteChoice::Against
            };
            let other = if side == VoteChoice::For {
                VoteChoice::Against
            } else {
                VoteChoice::For
            };
            &&& majority.len() == count_choice(votes, side)
            &&& minority.len() == count_choice(votes, other)
            &&& forall|i: int| 0 <= i < majority.len() ==> votes.contains(Vote { voter: #[trigger] majority[i], is_for: side })
            &&& forall|i: int| 0 <= i < minority.len() ==> votes.contains(Vote { voter: #[trigger] minority[i], is_for: other })
        }),
{
    lemma_voters_with(votes, VoteChoice::For);
    lemma_voters_with(votes, VoteChoice::Against);
}

/// Assigning a report to a list of moderators appends the report to the
/// reports of each moderator once for every time it occurs in the list, and
/// changes nothing else.
pub proof fn lemma_assignment_appends(m: Map<AccountId, ModeratorView>, list: Seq<AccountId>, c: ContentId)
    requires
        assign_reports(m, list, c).1 is Ok,
    ensures
        ({
            let after = assign_reports(m, list, c).0;
            &&& after.dom() == m.dom()
            &&& forall|a: AccountId| #[trigger] after.contains_key(a) ==> {
                let before = m[a].assigned_reports;
                let now = after[a].assigned_reports;
                &&& after[a].collateral_tokens == m[a].collateral_tokens
                &&& now.len() == before.len() + count_in(list, a)
                &&& now.subrange(0, before.len() as int) == before
                &&& forall|i: int| before.len() <= i < now.len() ==> now[i] == c
            }
        }),
    decreases list.len(),
{
    if list.len() > 0 {
        lemma_assignment_appends(m, list.drop_last(), c);
        let m1 = assign_reports(m, list.drop_last(), c).0;
        let after = assign_reports(m, list, c).0;
        assert(after.dom() =~= m.dom());
        assert forall|a: AccountId| #[trigger] after.contains_key(a) implies {
            let before = m[a].assigned_reports;
            let now = after[a].assigned_reports;
            &&& now.len() == before.len() + count_in(list, a)
            &&& now.subrange(0, before.len() as int) == before
            &&& forall|i: int| before.len() <= i < now.len() ==> now[i] == c
        } by {
            let before = m[a].assigned_reports;
            let mid = m1[a].assigned_reports;
            let now = after[a].assigned_reports;
            if a == list.last() {
                assert(now == mid.push(c));
                assert(now.subrange(0, before.len() as int) =~= mid.subrange(0, before.len() as int));
            }
        }
    }
}

/// Reporting content records the report, in resolution, opens its tier-one
/// verdict with the moderators' pool (three moderator fees, saturating), as
/// many required votes as tier-one moderators and no vote yet, and appends
/// the report to the reports of each drafted moderator.
pub proof fn lemma_report_opens_tier_one<C: Currency>(
    s: ModerationView,
    cfg: Config,
    reputation: u32,
    who: AccountId,
    content_id: ContentId,
    reportee_id: AccountId,
    content_type: ContentType,
    infringiment: InfringimentType,
    justification: Seq<u8>,
)
    requires
        create_report_spec::<C>(s, cfg, reputation, who, content_id, reportee_id, content_type, infringiment, justification).1 is Ok,
    ensures
        ({
            let after = create_report_spec::<C>(
                s,
                cfg,
                reputation,
                who,
                content_id,
                reportee_id,
                content_type,
                infringiment,
                justification,
            ).0;
            let fee = cfg.movie_collateral / (cfg.total_tier_one_moderators as Balance);
            let o = after.verdicts[verdict_key(content_id, Tiers::TierOne)];
            let list = drafted(s, cfg);
            &&& !s.reports.contains_key(content_id)
            &&& cfg.total_tier_one_moderators > 0
            &&& after.reports == s.reports.insert(
                content_id,
                ReportView {
                    reporter_id: who,
                    reportee_id,
                    content_type,
                    infringiment,
                    justification,
                    status: ReportStatus::InResolution,
                },
            )
            &&& after.verdicts.contains_key(verdict_key(content_id, Tiers::TierOne))
            &&& o.staked_tokens == if fee * 3 > u128::MAX {
                u128::MAX as int
            } else {
                fee * 3
            }
            &&& o.required_votes == cfg.total_tier_one_moderators
            &&& o.votes_for == 0
            &&& o.votes.len() == 0
            &&& after.moderators.dom() == s.moderators.dom()
            &&& forall|a: AccountId| #[trigger] after.moderators.contains_key(a) ==> {
                let before = s.moderators[a].assigned_reports;
                let now = after.moderators[a].assigned_reports;
                &&& now.len() == before.len() + count_in(list, a)
                &&& now.subrange(0, before.len() as int) == before
                &&& forall|i: int| before.len() <= i < now.len() ==> now[i] == content_id
            }
        }),
{
    lemma_assignment_appends(s.moderators, drafted(s, cfg), content_id);
}

proof fn lemma_filter_within<A>(s: Seq<A>, pred: spec_fn(A) -> bool)
    ensures
        forall|i: int| 0 <= i < s.filter(pred).len() ==> s.contains(#[trigger] s.filter(pred)[i]),
    decreases s.len(),
{
    reveal(Seq::filter);
    if s.len() > 0 {
        lemma_filter_within(s.drop_last(), pred);
        let sub = s.drop_last().filter(pred);
        assert forall|i: int| 0 <= i < sub.len() implies s.contains(#[trigger] sub[i]) by {
            let j = choose|j: int| 0 <= j < s.drop_last().len() && s.drop_last()[j] == sub[i];
            assert(s[j] == sub[i]);
        }
        assert(s[s.len() - 1] == s.last());
    }
}

/// Voting releases the moderator from the report and from nothing else: it
/// keeps every other report it was assigned, and its stake; no other
/// moderator changes.
pub proof fn lemma_vote_releases_only_that_report(s: ModerationView, who: AccountId, content_id: ContentId, vote: VoteChoice)
    requires
        s.moderators.contains_key(who),
        submit_vote_spec(s, who, content_id, vote).1 is Ok,
    ensures
        ({
            let after = submit_vote_spec(s, who, content_id, vote).0;
            let before = s.moderators[who];
            &&& after.moderators.dom() == s.moderators.dom()
            &&& forall|a: AccountId| a != who && #[trigger] after.moderators.contains_key(a) ==> after.moderators[a]
                == s.moderators[a]
            &&& after.moderators[who].collateral_tokens == before.collateral_tokens
            &&& forall|x: ContentId| #[trigger] after.moderators[who].assigned_reports.contains(x) <==> (
            before.assigned_reports.contains(x) && x != content_id)
        }),
{
    broadcast use vstd::seq_lib::group_filter_ensures;

    let after = submit_vote_spec(s, who, content_id, vote).0;
    let before = s.moderators[who].assigned_reports;
    let kept = before.filter(other_content(content_id));
    assert(after.moderators.dom() =~= s.moderators.dom());
    lemma_filter_within(before, other_content(content_id));
    assert forall|x: ContentId| #[trigger] kept.contains(x) <==> (before.contains(x) && x != content_id) by {
        if kept.contains(x) {
            let k = choose|k: int| 0 <= k < kept.len() && kept[k] == x;
            assert(before.contains(kept[k]));
            assert(other_content(content_id)(kept[k]));
        }
        if before.contains(x) && x != content_id {
            let k = choose|k: int| 0 <= k < before.len() && before[k] == x;
            assert(kept.contains(before[k]));
        }
    }
}

/// The stake of a report: the moderator fee for each tier-one moderator, and
/// the pool of a tier three fees, each capped at the largest balance; there
/// is none without tier-one moderators.
pub proof fn lemma_report_pool_is_fees(cfg: Config, n: u32)
    ensures
        report_pool(cfg, n) is Ok <==> cfg.total_tier_one_moderators > 0,
        report_pool(cfg, n) is Ok ==> {
            let fee = cfg.movie_collateral / (cfg.total_tier_one_moderators as Balance);
            let (stake, pool) = report_pool(cfg, n)->Ok_0;
            &&& stake == if fee * n > u128::MAX {
                u128::MAX as int
            } else {
                fee * n
            }
            &&& pool == if fee * 3 > u128::MAX {
                u128::MAX as int
            } else {
                fee * 3
            }
        },
{
}

} // verus!
