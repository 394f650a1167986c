//! Data, storage and views of the moderation module.
use vstd::prelude::*;

use std::collections::BTreeMap;

use crate::currency::{Currency, LedgerView};
use crate::stat_tracker;
use crate::stat_tracker::Stats;
use crate::system::{AccountId, Balance, DispatchError};

verus! {

/// Identifier of reported content.
pub type ContentId = u64;

#[derive(Clone, Copy, Debug, PartialEq, Eq, Structural)]
pub enum InfringimentType {
    Adult,
    Copyright,
    Community,
    Other,
}

#[derive(Clone, Copy, Debug, PartialEq, Eq, Structural)]
pub enum ContentType {
    Festival,
    Movie,
    Category,
}

#[derive(Clone, Copy, Debug, PartialEq, Eq, Structural)]
pub enum ReportStatus {
    InResolution,
    MajorityVotedFor,
    MajorityVotedAgainst,
    AppealedByReporter,
    AppealedByReportee,
    Accepted,
    Refused,
}

#[derive(Clone, Copy, Debug, PartialEq, Eq, Structural)]
pub enum Tiers {
    TierOne,
    TierTwo,
    TierThree,
}

#[derive(Clone, Copy, Debug, PartialEq, Eq, Structural)]
pub enum VoteChoice {
    For,
    Against,
    Abstinence,
}

/// A report on some content.
#[derive(Clone, Debug)]
pub struct Report {
    pub reporter_id: AccountId,
    pub reportee_id: AccountId,
    pub content_type: ContentType,
    pub infringiment: InfringimentType,
    /// At most `justification_limit` bytes.
    pub justification: Vec<u8>,
    pub status: ReportStatus,
}

/// The votes of one tier on a report.
#[derive(Clone, Debug)]
pub struct ReportOutcome {
    pub staked_tokens: Balance,
    pub required_votes: u32,
    pub votes_for: u32,
    /// At most `max_reports_by_tier` votes.
    pub votes: Vec<Vote>,
}

/// A registered moderator.
#[derive(Clone, Debug)]
pub struct Moderator {
    pub collateral_tokens: Balance,
    /// At most `max_reports_by_moderator` reports.
    pub assigned_reports: Vec<ContentId>,
}

#[derive(Clone, Copy, Debug, PartialEq, Eq, Structural)]
pub struct Vote {
    pub voter: AccountId,
    pub is_for: VoteChoice,
}

#[derive(Clone, Copy, Debug, PartialEq, Eq, Structural)]
pub enum Event {
    ModeratorRegistered(AccountId),
    ModerationActivitySuspended(AccountId),
    ModerationRewardsClaimed(AccountId, Balance),
    VoteSubmitted,
    ReportCreated(ContentId, AccountId, ContentType, InfringimentType),
    ReportClosed(ContentId, ReportStatus),
    ReportAppealed(ContentId),
    ReportAppealAccepted(ContentId),
    ReportAppealRefused(ContentId),
    FestivalReported,
    MovieReported,
    CategoryReported,
    CommentReported,
    JuryDraftedTierOne,
    ModerationStartedTierOne,
    TierOneFinalized,
    EscalateToTierTwo,
    JuryDraftedTierTwo,
    ModerationStartedTierTwo,
    TierTwoFinalized,
    EscalateToTierThree,
    JuryDraftedTierThree,
    ModerationStartedTierThree,
    TierThreeFinalized,
}

#[derive(Clone, Copy, Debug, PartialEq, Eq, Structural)]
pub enum Error {
    Overflow,
    Underflow,
    BadMetadata,
    AlreadyRegisteredAsModerator,
    NonexistentModerator,
    InvalidModeratorData,
    ModeratorNotDraftedForReport,
    NotEnoughModeratorsRegistered,
    UserCannotAcceptVerdict,
    NonexistentReport,
    ReportsAwaitingVote,
    ReportAlreadyOngoing,
    ReportAppealLimitReached,
    InsuficientBalance,
}

/// The parameters the runtime sets for the module.
#[derive(Clone, Copy, Debug, PartialEq, Eq, Structural)]
pub struct Config {
    pub justification_limit: u32,
    pub max_reports_by_moderator: u32,
    pub total_tier_one_moderators: u32,
    pub max_reports_by_tier: u32,
    /// The stake a moderator deposits to register.
    pub minimum_tokens_for_moderation: Balance,
    pub movie_collateral: Balance,
    /// The account of the module's vault, which holds stakes and reward pools.
    pub pallet_account: AccountId,
}

/// Storage of the module, with the wallet reputations of the stat tracker and
/// the balances the module moves.
pub struct Pallet<C: Currency> {
    pub config: Config,
    pub reports: BTreeMap<ContentId, Report>,
    /// Keyed by content and tier index (see `tier_index`).
    pub report_verdicts: BTreeMap<(ContentId, u8), ReportOutcome>,
    pub moderators: BTreeMap<AccountId, Moderator>,
    pub stat_tracker: stat_tracker::Pallet,
    pub currency: C,
    pub events: Vec<Event>,
}

// ----- views -----

pub struct ReportView {
    pub reporter_id: AccountId,
    pub reportee_id: AccountId,
    pub content_type: ContentType,
    pub infringiment: InfringimentType,
    pub justification: Seq<u8>,
    pub status: ReportStatus,
}

pub struct OutcomeView {
    pub staked_tokens: Balance,
    pub required_votes: u32,
    pub votes_for: u32,
    pub votes: Seq<Vote>,
}

pub struct ModeratorView {
    pub collateral_tokens: Balance,
    pub assigned_reports: Seq<ContentId>,
}

impl View for Report {
    type V = ReportView;

    open spec fn view(&self) -> ReportView {
        ReportView {
            reporter_id: self.reporter_id,
            reportee_id: self.reportee_id,
            content_type: self.content_type,
            infringiment: self.infringiment,
            justification: self.justification@,
            status: self.status,
        }
    }
}

impl View for ReportOutcome {
    type V = OutcomeView;

    open spec fn view(&self) -> OutcomeView {
        OutcomeView {
            staked_tokens: self.staked_tokens,
            required_votes: self.required_votes,
            votes_for: self.votes_for,
            votes: self.votes@,
        }
    }
}

impl View for Moderator {
    type V = ModeratorView;

    open spec fn view(&self) -> ModeratorView {
        ModeratorView { collateral_tokens: self.collateral_tokens, assigned_reports: self.assigned_reports@ }
    }
}

/// Everything the module's calls read or change.
pub struct ModerationView {
    pub reports: Map<ContentId, ReportView>,
    pub verdicts: Map<(ContentId, u8), OutcomeView>,
    pub moderators: Map<AccountId, ModeratorView>,
    pub reputation: Map<AccountId, Stats>,
    pub ledger: LedgerView,
    pub events: Seq<Event>,
}

pub open spec fn reports_view(m: Map<ContentId, Report>) -> Map<ContentId, ReportView> {
    m.map_values(|r: Report| r@)
}

pub open spec fn verdicts_view(m: Map<(ContentId, u8), ReportOutcome>) -> Map<(ContentId, u8), OutcomeView> {
    m.map_values(|o: ReportOutcome| o@)
}

pub open spec fn moderators_view(m: Map<AccountId, Moderator>) -> Map<AccountId, ModeratorView> {
    m.map_values(|m: Moderator| m@)
}

impl<C: Currency> View for Pallet<C> {
    type V = ModerationView;

    open spec fn view(&self) -> ModerationView {
        ModerationView {
            reports: reports_view(self.reports@),
            verdicts: verdicts_view(self.report_verdicts@),
            moderators: moderators_view(self.moderators@),
            reputation: self.stat_tracker.wallet_reputation@,
            ledger: self.currency.ledger(),
            events: self.events@,
        }
    }
}

/// The index of a tier in the verdict storage.
pub open spec fn tier_index_spec(t: Tiers) -> u8 {
    match t {
        Tiers::TierOne => 0,
        Tiers::TierTwo => 1,
        Tiers::TierThree => 2,
    }
}

#[verifier::when_used_as_spec(tier_index_spec)]
pub fn tier_index(t: Tiers) -> (r: u8)
    ensures
        r == tier_index_spec(t),
{
    match t {
        Tiers::TierOne => 0,
        Tiers::TierTwo => 1,
        Tiers::TierThree => 2,
    }
}

/// The storage key of the verdict of `tier` on `content_id`.
pub open spec fn verdict_key(content_id: ContentId, tier: Tiers) -> (ContentId, u8) {
    (content_id, tier_index(tier))
}

/// The error `e` of this module.
pub open spec fn fail<T>(e: Error) -> Result<T, DispatchError> {
    Err(DispatchError::Moderation(e))
}

/// A copy of `v`.
fn copy_bytes(v: &Vec<u8>) -> (r: Vec<u8>)
    ensures
        r@ == v@,
{
    let mut r: Vec<u8> = Vec::new();
    let mut i: usize = 0;
    while i < v.len()
        invariant
            i <= v.len(),
            r@ == v@.take(i as int),
        decreases v.len() - i,
    {
        r.push(v[i]);
        i = i + 1;
        assert(r@ =~= v@.take(i as int));
    }
    assert(v@.take(i as int) =~= v@);
    r
}

/// A copy of `v`.
fn copy_votes(v: &Vec<Vote>) -> (r: Vec<Vote>)
    ensures
        r@ == v@,
{
    let mut r: Vec<Vote> = Vec::new();
    let mut i: usize = 0;
    while i < v.len()
        invariant
            i <= v.len(),
            r@ == v@.take(i as int),
        decreases v.len() - i,
    {
        r.push(v[i]);
        i = i + 1;
        assert(r@ =~= v@.take(i as int));
    }
    assert(v@.take(i as int) =~= v@);
    r
}

fn copy_report(report: &Report) -> (r: Report)
    ensures
        r@ == report@,
{
    Report {
        reporter_id: report.reporter_id,
        reportee_id: report.reportee_id,
        content_type: report.content_type,
        infringiment: report.infringiment,
        justification: copy_bytes(&report.justification),
        status: report.status,
    }
}

fn copy_outcome(outcome: &ReportOutcome) -> (r: ReportOutcome)
    ensures
        r@ == outcome@,
{
    ReportOutcome {
        staked_tokens: outcome.staked_tokens,
        required_votes: outcome.required_votes,
        votes_for: outcome.votes_for,
        votes: copy_votes(&outcome.votes),
    }
}

impl<C: Currency> Pallet<C> {
    /// The module at genesis: no report, verdict, moderator or event.
    pub fn new(config: Config, stat_tracker: stat_tracker::Pallet, currency: C) -> (r: Self)
        ensures
            r.config == config,
            r.stat_tracker.config.default_reputation == stat_tracker.config.default_reputation,
            r@ == (ModerationView {
                reports: Map::empty(),
                verdicts: Map::empty(),
                moderators: Map::empty(),
                reputation: stat_tracker.wallet_reputation@,
                ledger: currency.ledger(),
                events: Seq::empty(),
            }),
    {
        let r = Pallet {
            config,
            reports: BTreeMap::new(),
            report_verdicts: BTreeMap::new(),
            moderators: BTreeMap::new(),
            stat_tracker,
            currency,
            events: Vec::new(),
        };
        assert(r@.reports =~= Map::empty());
        assert(r@.verdicts =~= Map::empty());
        assert(r@.moderators =~= Map::empty());
        r
    }

    /// `self` and `other` run with the same parameters.
    pub open spec fn same_setup(self, other: Self) -> bool {
        &&& self.config == other.config
        &&& self.stat_tracker.config.default_reputation == other.stat_tracker.config.default_reputation
    }

    /// The report on `content_id`, if there is one.
    pub fn report(&self, content_id: ContentId) -> (r: Option<Report>)
        ensures
            r is Some <==> self@.reports.contains_key(content_id),
            r is Some ==> r->Some_0@ == self@.reports[content_id],
    {
        match self.reports.get(&content_id) {
            Some(report) => Some(copy_report(report)),
            None => None,
        }
    }

    /// The verdict of `tier` on `content_id`, if there is one.
    pub fn report_tier_verdict(&self, content_id: ContentId, tier: Tiers) -> (r: Option<ReportOutcome>)
        ensures
            r is Some <==> self@.verdicts.contains_key(verdict_key(content_id, tier)),
            r is Some ==> r->Some_0@ == self@.verdicts[verdict_key(content_id, tier)],
    {
        match self.report_verdicts.get(&(content_id, tier_index(tier))) {
            Some(outcome) => Some(copy_outcome(outcome)),
            None => None,
        }
    }

    /// The account of the module's vault.
    pub fn account_id(&self) -> (r: AccountId)
        ensures
            r == self.config.pallet_account,
    {
        self.config.pallet_account
    }
}

} // verus!
