//! Accounts, call origins and the error type shared by every module.
use vstd::prelude::*;

use crate::currency::CurrencyError;
use crate::moderation;
use crate::movie;
use crate::stat_tracker;
use crate::template;

verus! {

/// An account on the chain.
pub type AccountId = u64;

/// An amount of the native token.
pub type Balance = u128;

/// Who dispatched a call.
#[derive(Clone, Copy, Debug, PartialEq, Eq, Structural)]
pub enum RawOrigin {
    Root,
    Signed(AccountId),
    Unsigned,
}

/// Why a call failed.
#[derive(Clone, Copy, Debug, PartialEq, Eq, Structural)]
pub enum DispatchError {
    /// The call was not signed by an account.
    BadOrigin,
    Template(template::Error),
    StatTracker(stat_tracker::Error),
    Movie(movie::Error),
    Moderation(moderation::Error),
    /// The balances module refused a transfer.
    Currency(CurrencyError),
}

/// The signer of `origin`, or `BadOrigin` when the call is not signed.
pub fn ensure_signed(origin: RawOrigin) -> (r: Result<AccountId, DispatchError>)
    ensures
        match origin {
            RawOrigin::Signed(who) => r == Ok::<AccountId, DispatchError>(who),
            _ => r == Err::<AccountId, DispatchError>(DispatchError::BadOrigin),
        },
{
    match origin {
        RawOrigin::Signed(who) => Ok(who),
        _ => Err(DispatchError::BadOrigin),
    }
}

} // verus!
