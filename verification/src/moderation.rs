//! Moderation of reported content: moderators stake tokens to register, are
//! drafted onto reports, vote on them, and are rewarded or slashed once the
//! reporter or the reportee accepts the verdict; verdicts can be appealed to
//! higher tiers.
pub mod types;
pub mod spec;
pub mod keys;
pub mod moderators;
pub mod drafting;
pub mod reports;
pub mod votes;
pub mod treasury;
pub mod rewards;
pub mod settlement;
pub mod calls;
pub mod laws;

pub use types::{
    Config, ContentId, ContentType, Error, Event, InfringimentType, Moderator, ModeratorView,
    ModerationView, OutcomeView, Pallet, Report, ReportOutcome, ReportStatus, ReportView, Tiers,
    Vote, VoteChoice,
};
