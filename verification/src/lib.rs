//! Verified models of a set of runtime modules ("pallets") for a decentralised
//! cinema platform: movie registration, wallet reputation tracking, content
//! moderation with staked moderators and tiered appeals, ranking lists, and a
//! minimal storage example.
//!
//! Each module keeps its on-chain storage in ordinary collections inside a
//! `Pallet` value and exposes the dispatchable calls and helpers as methods
//! whose contracts state exactly how storage, balances and the event log change.
pub mod system;
pub mod currency;
pub mod template;
pub mod stat_tracker;
pub mod movie;
pub mod ranking_list;
pub mod moderation;

