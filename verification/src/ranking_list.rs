//! Ranking lists of movies; this module only declares its data and storage.
use vstd::prelude::*;

use std::collections::BTreeMap;

use crate::system::{AccountId, Balance};

verus! {

/// Identifier of a ranking list.
pub type RankingListId = u32;

#[derive(Clone, Copy, Debug, PartialEq, Eq, Structural)]
pub enum RankingListStatus {
    New,
    Approved,
    Declined,
    Active,
    Inactive,
}

#[derive(Clone, Copy, Debug, PartialEq, Eq, Structural)]
pub enum Category {
    Youtube,
    Vimeo,
    Cinema,
}

#[derive(Clone, Copy, Debug, PartialEq, Eq, Structural)]
pub enum RestakeFunds {
    Yes,
    No,
}

/// A ranking list; its texts hold at most `string_limit` bytes.
pub struct RankingList {
    pub creator: AccountId,
    pub name: Vec<u8>,
    pub description: Vec<u8>,
    pub status: RankingListStatus,
    pub category: Category,
}

/// Funds locked on a movie of a list.
pub struct Vote {
    pub movie_id: Vec<u8>,
    pub locked_amount: Balance,
}

pub enum Event {
    RankingListCreated(RankingListId, AccountId),
    MovieAddedToList(RankingListId, Vec<u8>, AccountId),
    TestEvent(AccountId, u32),
}

/// The parameters the runtime sets for the module.
#[derive(Clone, Copy, Debug)]
pub struct Config {
    /// The largest number of bytes a text of a list may hold.
    pub string_limit: u32,
    /// The identifier of the module's vault.
    pub pallet_id: [u8; 8],
}

/// Storage of the module.
pub struct Pallet {
    pub config: Config,
    pub ranking_lists: BTreeMap<RankingListId, RankingList>,
    pub next_ranking_list_id: RankingListId,
    /// The movies of each list: title identifier to title name.
    pub movies_in_list: BTreeMap<(RankingListId, Vec<u8>), Vec<u8>>,
    pub derivative_nounce: u16,
    pub events: Vec<Event>,
}

impl Pallet {
    /// The module at genesis: no list, counters at zero.
    pub fn new(config: Config) -> (r: Pallet)
        ensures
            r.config == config,
            r.ranking_lists@ == Map::<RankingListId, RankingList>::empty(),
            r.next_ranking_list_id == 0,
            r.movies_in_list@ == Map::<(RankingListId, Vec<u8>), Vec<u8>>::empty(),
            r.derivative_nounce == 0,
            r.events@ == Seq::<Event>::empty(),
    {
        Pallet {
            config,
            ranking_lists: BTreeMap::new(),
            next_ranking_list_id: 0,
            movies_in_list: BTreeMap::new(),
            derivative_nounce: 0,
            events: Vec::new(),
        }
    }

    /// The identifier the next ranking list gets.
    pub fn next_ranking_list_id(&self) -> (r: RankingListId)
        ensures
            r == self.next_ranking_list_id,
    {
        self.next_ranking_list_id
    }

    /// The index of the next derivative account.
    pub fn next_derivate_nounce(&self) -> (r: u16)
        ensures
            r == self.derivative_nounce,
    {
        self.derivative_nounce
    }
}

} // verus!
