use std::collections::BTreeMap;

use pallets::currency::{CurrencyError, Ledger};
use pallets::moderation::{
    Config, ContentType, Error, Event, InfringimentType, Pallet, ReportStatus, Tiers, VoteChoice,
};
use pallets::stat_tracker;
use pallets::stat_tracker::Stats;
use pallets::system::{AccountId, DispatchError, RawOrigin};

const VAULT: AccountId = 999;
const REPORTER: AccountId = 7;
const REPORTEE: AccountId = 8;
const CONTENT: u64 = 50;

fn config() -> Config {
    Config {
        justification_limit: 64,
        max_reports_by_moderator: 4,
        total_tier_one_moderators: 3,
        max_reports_by_tier: 8,
        minimum_tokens_for_moderation: 100,
        movie_collateral: 300,
        pallet_account: VAULT,
    }
}

fn pallet_with(config: Config) -> Pallet<Ledger> {
    let mut ledger = Ledger::new(1);
    for a in 1..=20u64 {
        ledger.set_free_balance(a, 10_000);
    }
    ledger.set_free_balance(VAULT, 10_000);
    Pallet::new(config, stat_tracker::Pallet::new(stat_tracker::Config { default_reputation: 10 }), ledger)
}

fn pallet() -> Pallet<Ledger> {
    pallet_with(config())
}

fn moderation_err(e: Error) -> Result<(), DispatchError> {
    Err(DispatchError::Moderation(e))
}

fn register(p: &mut Pallet<Ledger>, accounts: &[AccountId]) {
    for a in accounts {
        p.apply_for_moderation(RawOrigin::Signed(*a)).unwrap();
    }
}

fn report(p: &mut Pallet<Ledger>) -> Result<(), DispatchError> {
    p.create_report(
        RawOrigin::Signed(REPORTER),
        CONTENT,
        REPORTEE,
        ContentType::Movie,
        InfringimentType::Copyright,
        b"stolen footage".to_vec(),
    )
}

/// Four moderators, a report drafted to 1, 2 and 3, who vote for, for, against.
fn voted_for() -> Pallet<Ledger> {
    let mut p = pallet();
    register(&mut p, &[4, 2, 1, 3]);
    report(&mut p).unwrap();
    p.submit_vote(RawOrigin::Signed(1), CONTENT, VoteChoice::For).unwrap();
    p.submit_vote(RawOrigin::Signed(2), CONTENT, VoteChoice::For).unwrap();
    p.submit_vote(RawOrigin::Signed(3), CONTENT, VoteChoice::Against).unwrap();
    p
}

fn collateral(p: &Pallet<Ledger>, who: AccountId) -> u128 {
    p.moderators.get(&who).unwrap().collateral_tokens
}

#[test]
fn apply_for_moderation_stakes_the_minimum_and_registers_the_wallet() {
    let mut p = pallet();
    assert_eq!(p.apply_for_moderation(RawOrigin::Signed(1)), Ok(()));
    assert_eq!(collateral(&p, 1), 100);
    assert!(p.moderators.get(&1).unwrap().assigned_reports.is_empty());
    assert_eq!(p.currency.free_balance(1), 9_900);
    assert_eq!(p.currency.free_balance(VAULT), 10_100);
    assert_eq!(p.stat_tracker.wallet_reputation(1), Some(Stats { reputation: 10 }));
    assert_eq!(p.events, vec![Event::ModeratorRegistered(1)]);
}

#[test]
fn apply_for_moderation_twice_is_refused_and_changes_nothing() {
    let mut p = pallet();
    register(&mut p, &[1]);
    assert_eq!(p.apply_for_moderation(RawOrigin::Signed(1)), moderation_err(Error::AlreadyRegisteredAsModerator));
    assert_eq!(p.currency.free_balance(1), 9_900);
    assert_eq!(p.events.len(), 1);
}

#[test]
fn apply_for_moderation_without_funds_fails_in_the_balances() {
    let mut p = pallet();
    assert_eq!(
        p.apply_for_moderation(RawOrigin::Signed(30)),
        Err(DispatchError::Currency(CurrencyError::InsufficientBalance))
    );
    assert!(p.moderators.is_empty());
    assert!(p.stat_tracker.wallet_reputation.is_empty());
    assert!(p.events.is_empty());
}

#[test]
fn calls_need_a_signed_origin() {
    let mut p = voted_for();
    let before = p.events.len();
    assert_eq!(p.apply_for_moderation(RawOrigin::Root), Err(DispatchError::BadOrigin));
    assert_eq!(p.claim_moderation_rewards(RawOrigin::Unsigned), Err(DispatchError::BadOrigin));
    assert_eq!(p.suspend_moderation_activity(RawOrigin::Root), Err(DispatchError::BadOrigin));
    assert_eq!(p.submit_vote(RawOrigin::Root, CONTENT, VoteChoice::For), Err(DispatchError::BadOrigin));
    assert_eq!(p.submit_report_consensus_decision(RawOrigin::Root, CONTENT, true), Err(DispatchError::BadOrigin));
    assert_eq!(p.submit_report_appeal_decision(RawOrigin::Root, CONTENT, true), Err(DispatchError::BadOrigin));
    assert_eq!(p.events.len(), before);
}

#[test]
fn create_report_drafts_the_moderators_with_the_smallest_accounts() {
    let mut p = pallet();
    register(&mut p, &[4, 2, 1, 3]);
    assert_eq!(report(&mut p), Ok(()));
    for m in [1u64, 2, 3] {
        assert_eq!(p.moderators.get(&m).unwrap().assigned_reports, vec![CONTENT]);
    }
    assert!(p.moderators.get(&4).unwrap().assigned_reports.is_empty());
    let report = p.reports.get(&CONTENT).unwrap();
    assert_eq!(report.reporter_id, REPORTER);
    assert_eq!(report.reportee_id, REPORTEE);
    assert_eq!(report.status, ReportStatus::InResolution);
    assert_eq!(report.justification, b"stolen footage".to_vec());
    let verdict = p.report_verdicts.get(&(CONTENT, 0)).unwrap();
    assert_eq!(verdict.staked_tokens, 300);
    assert_eq!(verdict.required_votes, 3);
    assert_eq!(verdict.votes_for, 0);
    assert!(verdict.votes.is_empty());
    assert_eq!(p.currency.free_balance(REPORTER), 9_700);
    assert_eq!(p.currency.free_balance(VAULT), 10_000 + 400 + 300);
    assert_eq!(
        p.events.last(),
        Some(&Event::ReportCreated(CONTENT, REPORTER, ContentType::Movie, InfringimentType::Copyright))
    );
}

#[test]
fn create_report_twice_on_the_same_content_is_refused() {
    let mut p = pallet();
    register(&mut p, &[1, 2, 3]);
    report(&mut p).unwrap();
    let r = p.create_report(
        RawOrigin::Signed(9),
        CONTENT,
        REPORTEE,
        ContentType::Festival,
        InfringimentType::Adult,
        vec![],
    );
    assert_eq!(r, moderation_err(Error::ReportAlreadyOngoing));
    assert_eq!(p.currency.free_balance(9), 10_000);
}

#[test]
fn create_report_checks_the_encoded_size_of_the_moderator_list() {
    let mut cfg = config();
    cfg.total_tier_one_moderators = 20;
    let mut p = pallet_with(cfg);
    register(&mut p, &[1]);
    let vault_before = p.currency.free_balance(VAULT);
    assert_eq!(report(&mut p), moderation_err(Error::NotEnoughModeratorsRegistered));
    assert!(p.reports.is_empty());
    assert_eq!(p.currency.free_balance(REPORTER), 10_000);
    assert_eq!(p.currency.free_balance(VAULT), vault_before);
    // Two accounts encode to 4 + 2 * 8 = 20 bytes, which passes the check.
    register(&mut p, &[2]);
    assert_eq!(report(&mut p), Ok(()));
    assert_eq!(p.moderators.get(&1).unwrap().assigned_reports, vec![CONTENT]);
    assert_eq!(p.moderators.get(&2).unwrap().assigned_reports, vec![CONTENT]);
}

#[test]
fn create_report_registers_every_moderator_wallet_anew() {
    let mut p = pallet();
    register(&mut p, &[1, 2, 3]);
    p.stat_tracker.wallet_reputation.insert(2, Stats { reputation: 77 });
    report(&mut p).unwrap();
    assert_eq!(p.stat_tracker.wallet_reputation(2), Some(Stats { reputation: 10 }));
}

#[test]
fn create_report_with_no_tier_one_moderator_overflows() {
    let mut cfg = config();
    cfg.total_tier_one_moderators = 0;
    let mut p = pallet_with(cfg);
    assert_eq!(report(&mut p), moderation_err(Error::Overflow));
}

#[test]
fn votes_reach_a_majority_for_the_report() {
    let p = voted_for();
    assert_eq!(p.reports.get(&CONTENT).unwrap().status, ReportStatus::MajorityVotedFor);
    let verdict = p.report_verdicts.get(&(CONTENT, 0)).unwrap();
    assert_eq!(verdict.votes_for, 2);
    assert_eq!(verdict.votes.len(), 3);
    for m in [1u64, 2, 3] {
        assert!(p.moderators.get(&m).unwrap().assigned_reports.is_empty());
    }
    assert_eq!(p.events.last(), Some(&Event::VoteSubmitted));
}

#[test]
fn a_vote_leaves_the_status_until_all_votes_are_in() {
    let mut p = pallet();
    register(&mut p, &[1, 2, 3]);
    report(&mut p).unwrap();
    p.submit_vote(RawOrigin::Signed(2), CONTENT, VoteChoice::Against).unwrap();
    assert_eq!(p.reports.get(&CONTENT).unwrap().status, ReportStatus::InResolution);
    p.submit_vote(RawOrigin::Signed(1), CONTENT, VoteChoice::For).unwrap();
    p.submit_vote(RawOrigin::Signed(3), CONTENT, VoteChoice::Abstinence).unwrap();
    assert_eq!(p.reports.get(&CONTENT).unwrap().status, ReportStatus::MajorityVotedAgainst);
}

#[test]
fn a_moderator_votes_only_once() {
    let mut p = pallet();
    register(&mut p, &[1, 2, 3, 4]);
    report(&mut p).unwrap();
    p.submit_vote(RawOrigin::Signed(1), CONTENT, VoteChoice::For).unwrap();
    let votes_before = p.report_verdicts.get(&(CONTENT, 0)).unwrap().votes.len();
    assert_eq!(
        p.submit_vote(RawOrigin::Signed(1), CONTENT, VoteChoice::Against),
        moderation_err(Error::ModeratorNotDraftedForReport)
    );
    assert_eq!(
        p.submit_vote(RawOrigin::Signed(4), CONTENT, VoteChoice::Against),
        moderation_err(Error::ModeratorNotDraftedForReport)
    );
    assert_eq!(p.report_verdicts.get(&(CONTENT, 0)).unwrap().votes.len(), votes_before);
}

#[test]
fn the_reportee_accepting_a_verdict_for_the_report_settles_it() {
    let mut p = voted_for();
    p.currency.reserve(REPORTEE, 300).unwrap();
    let vault_before = p.currency.free_balance(VAULT);
    assert_eq!(p.submit_report_consensus_decision(RawOrigin::Signed(REPORTEE), CONTENT, true), Ok(()));
    // majority voters: 300 / 2 - 100 each; the minority voter loses the fee of 100
    assert_eq!(collateral(&p, 1), 150);
    assert_eq!(collateral(&p, 2), 150);
    assert_eq!(collateral(&p, 3), 0);
    // the reportee's collateral went to the vault, half the pool to the reporter
    assert_eq!(p.currency.reserved_balance(REPORTEE), 0);
    assert_eq!(p.currency.free_balance(REPORTEE), 9_700);
    assert_eq!(p.currency.free_balance(REPORTER), 9_700 + 150);
    assert_eq!(p.currency.free_balance(VAULT), vault_before + 300 - 150);
    assert_eq!(p.reports.get(&CONTENT).unwrap().status, ReportStatus::Accepted);
    assert_eq!(p.events.last(), Some(&Event::ReportClosed(CONTENT, ReportStatus::Accepted)));
}

#[test]
fn the_reporter_may_not_accept_a_verdict_for_the_report() {
    let mut p = voted_for();
    assert_eq!(
        p.submit_report_consensus_decision(RawOrigin::Signed(REPORTER), CONTENT, true),
        moderation_err(Error::UserCannotAcceptVerdict)
    );
    assert_eq!(
        p.submit_report_consensus_decision(RawOrigin::Signed(12), CONTENT, true),
        moderation_err(Error::UserCannotAcceptVerdict)
    );
    assert_eq!(p.reports.get(&CONTENT).unwrap().status, ReportStatus::MajorityVotedFor);
}

#[test]
fn a_decision_before_the_votes_are_in_is_refused() {
    let mut p = pallet();
    register(&mut p, &[1, 2, 3]);
    report(&mut p).unwrap();
    assert_eq!(
        p.submit_report_consensus_decision(RawOrigin::Signed(REPORTEE), CONTENT, true),
        moderation_err(Error::NonexistentReport)
    );
}

#[test]
fn a_failed_settlement_is_rolled_back() {
    let mut p = voted_for();
    // the reportee has no reserved collateral and too little to pay it
    p.currency.set_free_balance(REPORTEE, 50);
    let vault_before = p.currency.free_balance(VAULT);
    assert_eq!(
        p.submit_report_consensus_decision(RawOrigin::Signed(REPORTEE), CONTENT, true),
        Err(DispatchError::Currency(CurrencyError::InsufficientBalance))
    );
    assert_eq!(collateral(&p, 1), 100);
    assert_eq!(p.currency.free_balance(VAULT), vault_before);
    assert_eq!(p.currency.free_balance(REPORTEE), 50);
    assert_eq!(p.reports.get(&CONTENT).unwrap().status, ReportStatus::MajorityVotedFor);
}

#[test]
fn appealing_a_verdict_moves_the_report_to_appealed() {
    let mut p = voted_for();
    assert_eq!(p.submit_report_consensus_decision(RawOrigin::Signed(REPORTEE), CONTENT, false), Ok(()));
    assert_eq!(p.reports.get(&CONTENT).unwrap().status, ReportStatus::AppealedByReportee);
    assert_eq!(p.currency.free_balance(REPORTEE), 9_700);
    assert_eq!(p.events.last(), Some(&Event::ReportAppealed(CONTENT)));
}

#[test]
fn an_accepted_appeal_opens_the_next_tier() {
    let mut p = voted_for();
    p.submit_report_consensus_decision(RawOrigin::Signed(REPORTEE), CONTENT, false).unwrap();
    assert_eq!(
        p.submit_report_appeal_decision(RawOrigin::Signed(REPORTEE), CONTENT, true),
        moderation_err(Error::UserCannotAcceptVerdict)
    );
    assert_eq!(p.submit_report_appeal_decision(RawOrigin::Signed(REPORTER), CONTENT, true), Ok(()));
    assert_eq!(p.reports.get(&CONTENT).unwrap().status, ReportStatus::InResolution);
    let tier_two = p.report_verdicts.get(&(CONTENT, 1)).unwrap();
    assert_eq!(tier_two.staked_tokens, 300);
    assert!(tier_two.votes.is_empty());
    assert_eq!(p.currency.free_balance(REPORTER), 9_700 - 300);
    for m in [1u64, 2, 3] {
        assert_eq!(p.moderators.get(&m).unwrap().assigned_reports, vec![CONTENT]);
    }
    assert_eq!(p.events.last(), Some(&Event::ReportAppealAccepted(CONTENT)));
    let data = p.do_get_current_report_tier_data(CONTENT).unwrap();
    assert_eq!((data.0, data.1, data.2), (Tiers::TierTwo, Tiers::TierThree, true));
    assert_eq!(data.3, vec![Tiers::TierOne, Tiers::TierTwo]);
}

#[test]
fn a_refused_appeal_settles_the_report() {
    let mut p = voted_for();
    p.submit_report_consensus_decision(RawOrigin::Signed(REPORTEE), CONTENT, false).unwrap();
    let vault_before = p.currency.free_balance(VAULT);
    assert_eq!(p.submit_report_appeal_decision(RawOrigin::Signed(REPORTER), CONTENT, false), Ok(()));
    assert_eq!(collateral(&p, 1), 150);
    assert_eq!(collateral(&p, 2), 150);
    assert_eq!(collateral(&p, 3), 0);
    // the reportee gets 300 / 2 - 300 / 3 of the pool and its appeal stake back
    assert_eq!(p.currency.free_balance(REPORTEE), 9_700 + 50 + 300);
    assert_eq!(p.currency.free_balance(VAULT), vault_before - 50 - 300);
    assert_eq!(p.reports.get(&CONTENT).unwrap().status, ReportStatus::Refused);
    assert_eq!(p.events.last(), Some(&Event::ReportAppealRefused(CONTENT)));
}

#[test]
fn an_appeal_decision_without_an_appeal_is_refused() {
    let mut p = voted_for();
    assert_eq!(
        p.submit_report_appeal_decision(RawOrigin::Signed(REPORTER), CONTENT, true),
        moderation_err(Error::NonexistentReport)
    );
}

#[test]
fn the_last_tier_cannot_be_appealed() {
    let mut p = voted_for();
    p.do_create_report_verdict(CONTENT, Tiers::TierThree, 300).unwrap();
    assert_eq!(
        p.submit_report_consensus_decision(RawOrigin::Signed(REPORTEE), CONTENT, false),
        moderation_err(Error::ReportAppealLimitReached)
    );
    assert_eq!(p.currency.free_balance(REPORTEE), 10_000);
}

#[test]
fn claiming_rewards_takes_the_stake_above_the_minimum() {
    let mut p = voted_for();
    p.currency.reserve(REPORTEE, 300).unwrap();
    p.submit_report_consensus_decision(RawOrigin::Signed(REPORTEE), CONTENT, true).unwrap();
    assert_eq!(p.claim_moderation_rewards(RawOrigin::Signed(1)), Ok(()));
    assert_eq!(collateral(&p, 1), 100);
    assert_eq!(p.events.last(), Some(&Event::ModerationRewardsClaimed(1, 50)));
    assert_eq!(p.claim_moderation_rewards(RawOrigin::Signed(3)), Ok(()));
    assert_eq!(collateral(&p, 3), 0);
    assert_eq!(p.events.last(), Some(&Event::ModerationRewardsClaimed(3, 0)));
    assert_eq!(p.claim_moderation_rewards(RawOrigin::Signed(11)), moderation_err(Error::NonexistentModerator));
}

#[test]
fn suspending_returns_the_stake_once_no_report_is_pending() {
    let mut p = pallet();
    register(&mut p, &[1, 2, 3]);
    report(&mut p).unwrap();
    assert_eq!(p.suspend_moderation_activity(RawOrigin::Signed(1)), moderation_err(Error::ReportsAwaitingVote));
    p.submit_vote(RawOrigin::Signed(1), CONTENT, VoteChoice::For).unwrap();
    let vault_before = p.currency.free_balance(VAULT);
    assert_eq!(p.suspend_moderation_activity(RawOrigin::Signed(1)), Ok(()));
    assert!(p.moderators.get(&1).is_none());
    assert_eq!(p.currency.free_balance(1), 10_000);
    assert_eq!(p.currency.free_balance(VAULT), vault_before - 100);
    assert_eq!(p.events.last(), Some(&Event::ModerationActivitySuspended(1)));
}

#[test]
fn reward_formulas() {
    let p = pallet();
    assert_eq!(p.do_calculate_moderator_fee(), Ok(100));
    assert_eq!(p.do_calculate_report_pool(3), Ok((300, 300)));
    assert_eq!(p.do_calculate_report_pool(5), Ok((500, 300)));
    assert_eq!(Pallet::<Ledger>::do_calculate_reportee_reward(100), Ok(17));
    assert_eq!(Pallet::<Ledger>::do_calculate_reporter_reward(101), Ok(50));
    assert_eq!(p.do_calculate_majority_voter_reward(600, 2), Ok(200));
    assert_eq!(p.do_calculate_majority_voter_reward(600, 0), moderation_err(Error::Overflow).map(|_| 0));
    assert_eq!(p.do_calculate_majority_voter_reward(150, 2), moderation_err(Error::Overflow).map(|_| 0));
    assert_eq!(p.do_convert_collateral_to_balance(), Ok(300));
    assert_eq!(p.account_id(), VAULT);
}

#[test]
fn the_report_pool_saturates() {
    let mut cfg = config();
    cfg.movie_collateral = u128::MAX;
    cfg.total_tier_one_moderators = 1;
    let p = pallet_with(cfg);
    assert_eq!(p.do_calculate_report_pool(2), Ok((u128::MAX, u128::MAX)));
}

#[test]
fn without_tier_one_moderators_the_fee_overflows() {
    let mut cfg = config();
    cfg.total_tier_one_moderators = 0;
    let mut p = pallet_with(cfg);
    assert_eq!(p.do_calculate_moderator_fee(), moderation_err(Error::Overflow).map(|_| 0));
    assert_eq!(p.do_slash_tokens_from_minority_voters(vec![1]), moderation_err(Error::Overflow));
}

#[test]
fn drafting_takes_the_smallest_accounts_in_order() {
    let mut btree = BTreeMap::new();
    for a in [9u64, 1, 5, 3] {
        btree.insert(a, 10u32);
    }
    assert_eq!(Pallet::<Ledger>::do_draft_moderators_from_btree(btree.clone(), 2), Ok(vec![1, 3]));
    assert_eq!(Pallet::<Ledger>::do_draft_moderators_from_btree(btree.clone(), 10), Ok(vec![1, 3, 5, 9]));
    assert_eq!(Pallet::<Ledger>::do_draft_moderators_from_btree(btree, 0), Ok(vec![]));
}

#[test]
fn distributing_rewards_stops_at_an_unknown_moderator() {
    let mut p = pallet();
    register(&mut p, &[1, 2]);
    assert_eq!(
        p.do_distribute_rewards_to_majority_voters(vec![1, 40, 2], 25),
        moderation_err(Error::NonexistentModerator)
    );
    assert_eq!(collateral(&p, 1), 125);
    assert_eq!(collateral(&p, 2), 100);
}

#[test]
fn distributing_rewards_that_overflow_is_refused() {
    let mut p = pallet();
    register(&mut p, &[1]);
    assert_eq!(
        p.do_distribute_rewards_to_majority_voters(vec![1], u128::MAX),
        moderation_err(Error::Overflow)
    );
    assert_eq!(collateral(&p, 1), 100);
}

#[test]
fn slashing_below_zero_is_refused() {
    let mut p = pallet();
    register(&mut p, &[1, 2]);
    assert_eq!(p.do_slash_tokens_from_minority_voters(vec![1, 1, 2]), moderation_err(Error::Overflow));
    assert_eq!(collateral(&p, 1), 0);
    assert_eq!(collateral(&p, 2), 100);
}

#[test]
fn assigning_stops_at_an_unknown_moderator() {
    let mut p = pallet();
    register(&mut p, &[1, 2]);
    assert_eq!(
        p.do_assign_report_to_moderators(5, vec![2, 33, 1]),
        moderation_err(Error::NonexistentModerator)
    );
    assert_eq!(p.moderators.get(&2).unwrap().assigned_reports, vec![5]);
    assert!(p.moderators.get(&1).unwrap().assigned_reports.is_empty());
}

#[test]
fn deallocating_removes_every_copy_of_the_report() {
    let mut p = pallet();
    register(&mut p, &[1]);
    p.do_assign_report_to_moderators(5, vec![1, 1]).unwrap();
    p.do_assign_report_to_moderators(6, vec![1]).unwrap();
    assert_eq!(p.do_deallocate_moderator_from_report(1, 5), Ok(()));
    assert_eq!(p.moderators.get(&1).unwrap().assigned_reports, vec![6]);
    assert_eq!(p.do_deallocate_moderator_from_report(3, 5), moderation_err(Error::NonexistentModerator));
}

#[test]
fn tier_data_follows_the_highest_verdict() {
    let mut p = pallet();
    assert_eq!(
        p.do_get_current_report_tier_data(CONTENT).map(|_| ()),
        moderation_err(Error::NonexistentReport)
    );
    p.do_create_report_verdict(CONTENT, Tiers::TierOne, 1).unwrap();
    let d = p.do_get_current_report_tier_data(CONTENT).unwrap();
    assert_eq!((d.0, d.1, d.2, d.3), (Tiers::TierOne, Tiers::TierTwo, true, vec![Tiers::TierOne]));
    p.do_create_report_verdict(CONTENT, Tiers::TierThree, 1).unwrap();
    let d = p.do_get_current_report_tier_data(CONTENT).unwrap();
    assert_eq!(
        (d.0, d.1, d.2, d.3),
        (Tiers::TierThree, Tiers::TierThree, false, vec![Tiers::TierOne, Tiers::TierTwo, Tiers::TierThree])
    );
}

#[test]
fn voters_by_vote_split_by_the_consensus() {
    let p = voted_for();
    assert_eq!(
        p.do_get_report_voters_by_vote(CONTENT, Tiers::TierOne, ReportStatus::MajorityVotedFor),
        Ok((vec![1, 2], vec![3]))
    );
    assert_eq!(
        p.do_get_report_voters_by_vote(CONTENT, Tiers::TierOne, ReportStatus::AppealedByReporter),
        Ok((vec![3], vec![1, 2]))
    );
    assert_eq!(
        p.do_get_report_voters_by_vote(CONTENT, Tiers::TierOne, ReportStatus::Accepted),
        Ok((vec![1, 2, 3], vec![1, 2, 3]))
    );
}

#[test]
fn a_tie_is_a_majority_against() {
    let mut p = pallet();
    p.do_create_report_verdict(CONTENT, Tiers::TierOne, 1).unwrap();
    p.do_create_vote(CONTENT, Tiers::TierOne, 1, VoteChoice::For).unwrap();
    assert_eq!(p.do_are_all_votes_submitted(CONTENT, Tiers::TierOne), Ok(false));
    let mut cfg2 = p.report_verdicts.remove(&(CONTENT, 0)).unwrap();
    cfg2.required_votes = 2;
    p.report_verdicts.insert((CONTENT, 0), cfg2);
    assert_eq!(
        p.do_calculate_vote_consensus(CONTENT, Tiers::TierOne),
        Ok(ReportStatus::MajorityVotedAgainst)
    );
    p.do_create_vote(CONTENT, Tiers::TierOne, 2, VoteChoice::For).unwrap();
    assert_eq!(p.do_are_all_votes_submitted(CONTENT, Tiers::TierOne), Ok(true));
    assert_eq!(p.do_calculate_vote_consensus(CONTENT, Tiers::TierOne), Ok(ReportStatus::MajorityVotedFor));
    assert_eq!(
        p.do_calculate_vote_consensus(CONTENT, Tiers::TierTwo),
        Err(DispatchError::Moderation(Error::NonexistentReport))
    );
}

#[test]
fn report_status_helpers() {
    assert_eq!(Pallet::<Ledger>::do_get_report_status_on_accept(true), Ok(ReportStatus::Refused));
    assert_eq!(Pallet::<Ledger>::do_get_report_status_on_accept(false), Ok(ReportStatus::Accepted));
    assert_eq!(Pallet::<Ledger>::do_get_report_status_on_appeal(true), Ok(ReportStatus::AppealedByReporter));
    assert_eq!(Pallet::<Ledger>::do_get_report_status_on_appeal(false), Ok(ReportStatus::AppealedByReportee));
    let p = voted_for();
    assert_eq!(p.do_get_reporter(CONTENT), Ok(REPORTER));
    assert_eq!(p.do_get_reportee(CONTENT), Ok(REPORTEE));
    assert_eq!(p.do_get_reporter(1), Err(DispatchError::Moderation(Error::NonexistentReport)));
    assert_eq!(p.do_check_if_reporter_or_reportee(REPORTER, CONTENT), Ok(true));
    assert_eq!(p.do_check_if_reporter_or_reportee(REPORTEE, CONTENT), Ok(false));
    assert_eq!(p.do_get_total_moderation_pool(CONTENT, Tiers::TierOne), Ok(300));
}

#[test]
fn grabbing_collateral_of_an_unknown_report_fails() {
    let mut p = pallet();
    assert_eq!(p.do_grab_reportee_collateral(CONTENT, 300), moderation_err(Error::NonexistentReport));
}

#[test]
fn side_and_majority_rewards_stay_within_the_pool() {
    let p = pallet();
    for pool in [0u128, 1, 7, 100, 301, 1_000_000] {
        let reporter = Pallet::<Ledger>::do_calculate_reporter_reward(pool).unwrap();
        let reportee = Pallet::<Ledger>::do_calculate_reportee_reward(pool).unwrap();
        assert!(reporter + reportee <= pool);
        assert!(reportee <= reporter);
    }
    let reward = p.do_calculate_majority_voter_reward(1_000, 3).unwrap();
    assert_eq!(reward, 233);
    assert!(reward * 3 <= 1_000);
}

#[test]
fn a_vote_for_that_would_overflow_the_count_is_refused() {
    let mut p = pallet();
    p.do_create_report_verdict(CONTENT, Tiers::TierOne, 1).unwrap();
    let mut outcome = p.report_verdicts.remove(&(CONTENT, 0)).unwrap();
    outcome.votes_for = u32::MAX;
    p.report_verdicts.insert((CONTENT, 0), outcome);
    assert_eq!(
        p.do_create_vote(CONTENT, Tiers::TierOne, 1, VoteChoice::For),
        moderation_err(Error::Overflow)
    );
    assert!(p.report_verdicts.get(&(CONTENT, 0)).unwrap().votes.is_empty());
    assert_eq!(p.do_create_vote(CONTENT, Tiers::TierOne, 1, VoteChoice::Against), Ok(()));
    assert_eq!(p.report_verdicts.get(&(CONTENT, 0)).unwrap().votes.len(), 1);
    assert_eq!(
        p.do_create_vote(CONTENT, Tiers::TierTwo, 1, VoteChoice::Against),
        moderation_err(Error::NonexistentReport)
    );
}

#[test]
fn updating_the_status_of_an_unknown_report_fails() {
    let mut p = pallet();
    assert_eq!(
        p.do_update_report_status(CONTENT, ReportStatus::Accepted),
        moderation_err(Error::NonexistentReport)
    );
    assert!(p.reports.is_empty());
}

#[test]
fn checking_verdicts_and_appeals_reads_the_status() {
    let p = voted_for();
    assert_eq!(p.do_check_if_report_verdict_is_acceptable(CONTENT), Ok(ReportStatus::MajorityVotedFor));
    assert_eq!(
        p.do_check_if_report_appeal_is_acceptable(CONTENT),
        Err(DispatchError::Moderation(Error::NonexistentReport))
    );
    assert_eq!(p.do_can_user_accept_verdict(false, CONTENT), Ok(()));
    assert_eq!(p.do_can_user_accept_verdict(true, CONTENT), moderation_err(Error::UserCannotAcceptVerdict));
    assert_eq!(p.do_can_user_accept_appeal(true, CONTENT), Ok(()));
    assert_eq!(p.do_validate_report_data(CONTENT, &vec![]), moderation_err(Error::ReportAlreadyOngoing));
    assert_eq!(p.do_validate_report_data(CONTENT + 1, &vec![]), Ok(()));
    assert_eq!(p.do_check_if_already_moderator(1), moderation_err(Error::AlreadyRegisteredAsModerator));
    assert_eq!(p.do_check_if_already_moderator(15), Ok(()));
    assert_eq!(p.do_can_moderator_suspend(4), Ok(()));
    assert_eq!(p.do_can_moderator_vote(4, CONTENT), moderation_err(Error::ModeratorNotDraftedForReport));
}

#[test]
fn the_storage_getters_return_copies_of_reports_and_verdicts() {
    let p = voted_for();
    let r = p.report(CONTENT).unwrap();
    assert_eq!((r.reporter_id, r.reportee_id), (REPORTER, REPORTEE));
    assert_eq!(r.content_type, ContentType::Movie);
    assert_eq!(r.infringiment, InfringimentType::Copyright);
    assert_eq!(r.justification, b"stolen footage".to_vec());
    assert_eq!(r.status, ReportStatus::MajorityVotedFor);
    assert!(p.report(CONTENT + 1).is_none());
    let v = p.report_tier_verdict(CONTENT, Tiers::TierOne).unwrap();
    assert_eq!((v.staked_tokens, v.required_votes, v.votes_for), (300, 3, 2));
    assert_eq!(v.votes.len(), 3);
    assert_eq!(v.votes[2].voter, 3);
    assert_eq!(v.votes[2].is_for, VoteChoice::Against);
    assert!(p.report_tier_verdict(CONTENT, Tiers::TierTwo).is_none());
}

#[test]
fn paying_into_the_vault_and_back_restores_every_balance() {
    let mut p = pallet();
    assert_eq!(p.do_transfer_funds_to_treasury(5, 250), Ok(()));
    assert_eq!(p.currency.free_balance(5), 9_750);
    assert_eq!(p.currency.free_balance(VAULT), 10_250);
    assert_eq!(p.do_transfer_funds_from_treasury(5, 250), Ok(()));
    assert_eq!(p.currency.free_balance(5), 10_000);
    assert_eq!(p.currency.free_balance(VAULT), 10_000);
}

#[test]
fn settling_two_tiers_pays_both_pools_and_sums_each_stake_change() {
    let mut p = voted_for();
    p.submit_report_consensus_decision(RawOrigin::Signed(REPORTEE), CONTENT, false).unwrap();
    p.submit_report_appeal_decision(RawOrigin::Signed(REPORTER), CONTENT, true).unwrap();
    p.submit_vote(RawOrigin::Signed(1), CONTENT, VoteChoice::Against).unwrap();
    p.submit_vote(RawOrigin::Signed(2), CONTENT, VoteChoice::Against).unwrap();
    p.submit_vote(RawOrigin::Signed(3), CONTENT, VoteChoice::For).unwrap();
    assert_eq!(p.reports.get(&CONTENT).unwrap().status, ReportStatus::MajorityVotedAgainst);
    let vault_before = p.currency.free_balance(VAULT);
    assert_eq!(p.currency.free_balance(REPORTEE), 9_700);
    assert_eq!(p.currency.free_balance(REPORTER), 9_400);
    assert_eq!(p.submit_report_consensus_decision(RawOrigin::Signed(REPORTER), CONTENT, true), Ok(()));
    // the reporter gives in: the reportee gets 300 / 2 - 300 / 3 of each tier's pool
    assert_eq!(p.currency.free_balance(REPORTEE), 9_700 + 50 + 50);
    assert_eq!(p.currency.free_balance(VAULT), vault_before - 100);
    assert_eq!(p.currency.free_balance(REPORTER), 9_400);
    // tier one: 3 alone with the majority (+200), 1 and 2 slashed (-100);
    // tier two: 1 and 2 with the majority (+50 each), 3 slashed (-100)
    assert_eq!(collateral(&p, 1), 50);
    assert_eq!(collateral(&p, 2), 50);
    assert_eq!(collateral(&p, 3), 200);
    assert_eq!(collateral(&p, 4), 100);
    assert_eq!(p.reports.get(&CONTENT).unwrap().status, ReportStatus::Refused);
}
