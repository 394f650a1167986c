//! Sizes of stakes, pools and rewards.
use vstd::prelude::*;

use crate::currency::Currency;
use crate::moderation::spec::{
    majority_voter_reward, moderator_fee, report_pool, reportee_reward, reporter_reward,
    saturating_mul,
};
use crate::moderation::types::{fail, Error, Pallet};
use crate::system::{Balance, DispatchError};

verus! {

/// `a * b`, or the largest balance when the product does not fit.
fn balance_saturating_mul(a: Balance, b: Balance) -> (r: Balance)
    ensures
        r == saturating_mul(a, b),
{
    match a.checked_mul(b) {
        Some(p) => p,
        None => u128::MAX,
    }
}

impl<C: Currency> Pallet<C> {
    /// The movie collateral divided among the tier-one moderators.
    pub fn do_calculate_moderator_fee(&self) -> (r: Result<Balance, DispatchError>)
        ensures
            r == (match moderator_fee(self.config) {
                Some(fee) => Ok::<Balance, DispatchError>(fee),
                None => fail::<Balance>(Error::Overflow),
            }),
    {
        let movie_collateral = self.config.movie_collateral;
        match movie_collateral.checked_div(self.config.total_tier_one_moderators as Balance) {
            Some(fee) => Ok(fee),
            None => Err(DispatchError::Moderation(Error::Overflow)),
        }
    }

    /// The stake moderators of a report split, and the whole pool of a report.
    pub fn do_calculate_report_pool(&self, total_moderators: u32) -> (r: Result<(Balance, Balance), DispatchError>)
        ensures
            r == report_pool(self.config, total_moderators),
    {
        let moderator_fee = self.do_calculate_moderator_fee()?;
        let report_pool_third = balance_saturating_mul(moderator_fee, total_moderators as Balance);
        let report_pool_total = balance_saturating_mul(moderator_fee, 3);
        Ok((report_pool_third, report_pool_total))
    }

    /// Half of the pool less a third of it.
    pub fn do_calculate_reportee_reward(reward_pool: Balance) -> (r: Result<Balance, DispatchError>)
        ensures
            r == Ok::<Balance, DispatchError>(reportee_reward(reward_pool)),
    {
        let half_pool = reward_pool / 2;
        let one_third_pool = reward_pool / 3;
        match half_pool.checked_sub(one_third_pool) {
            Some(reward) => Ok(reward),
            None => Err(DispatchError::Moderation(Error::Overflow)),
        }
    }

    /// Half of the pool.
    pub fn do_calculate_reporter_reward(reward_pool: Balance) -> (r: Result<Balance, DispatchError>)
        ensures
            r == Ok::<Balance, DispatchError>(reporter_reward(reward_pool)),
    {
        Ok(reward_pool / 2)
    }

    /// Each majority voter's share of the pool, less the moderator fee.
    pub fn do_calculate_majority_voter_reward(&self, reward_pool: Balance, total_majority_voters: u32) -> (r: Result<
        Balance,
        DispatchError,
    >)
        ensures
            r == majority_voter_reward(self.config, reward_pool, total_majority_voters),
    {
        let tokens_per_voter = match reward_pool.checked_div(total_majority_voters as Balance) {
            Some(t) => t,
            None => { return Err(DispatchError::Moderation(Error::Overflow)); },
        };
        let moderator_fee = self.do_calculate_moderator_fee()?;
        match tokens_per_voter.checked_sub(moderator_fee) {
            Some(reward) => Ok(reward),
            None => Err(DispatchError::Moderation(Error::Overflow)),
        }
    }

    /// The collateral a reportee who loses forfeits: the movie collateral.
    pub fn do_convert_collateral_to_balance(&self) -> (r: Result<Balance, DispatchError>)
        ensures
            r == Ok::<Balance, DispatchError>(self.config.movie_collateral),
    {
        Ok(self.config.movie_collateral)
    }
}

} // verus!
