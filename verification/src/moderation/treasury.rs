//! Movements of funds between accounts and the module's vault.
use vstd::prelude::*;

use crate::currency::Currency;
use crate::moderation::spec::{grab_collateral_step, transfer_step};
use crate::moderation::types::{ContentId, Error, Pallet};
use crate::system::{AccountId, Balance, DispatchError};

verus! {

impl<C: Currency> Pallet<C> {
    /// Moves `amount` from `from` to `to`, keeping `from` alive.
    fn transfer(&mut self, from: AccountId, to: AccountId, amount: Balance) -> (r: Result<(), DispatchError>)
        ensures
            final(self).same_setup(*old(self)),
            final(self)@ == transfer_step::<C>(old(self)@, from, to, amount).0,
            r == transfer_step::<C>(old(self)@, from, to, amount).1,
    {
        match self.currency.transfer(from, to, amount) {
            Ok(()) => Ok(()),
            Err(e) => Err(DispatchError::Currency(e)),
        }
    }

    /// Moves `amount` from `who` into the vault.
    pub fn do_transfer_funds_to_treasury(&mut self, who: AccountId, amount: Balance) -> (r: Result<(), DispatchError>)
        ensures
            final(self).same_setup(*old(self)),
            final(self)@ == transfer_step::<C>(old(self)@, who, old(self).config.pallet_account, amount).0,
            r == transfer_step::<C>(old(self)@, who, old(self).config.pallet_account, amount).1,
    {
        let treasury = self.account_id();
        self.transfer(who, treasury, amount)
    }

    /// Moves `amount` from the vault to `who`.
    pub fn do_transfer_funds_from_treasury(&mut self, who: AccountId, amount: Balance) -> (r: Result<(), DispatchError>)
        ensures
            final(self).same_setup(*old(self)),
            final(self)@ == transfer_step::<C>(old(self)@, old(self).config.pallet_account, who, amount).0,
            r == transfer_step::<C>(old(self)@, old(self).config.pallet_account, who, amount).1,
    {
        let treasury = self.account_id();
        self.transfer(treasury, who, amount)
    }

    /// Unreserves `collateral` of the reportee of `content_id` and moves it
    /// into the vault.
    pub fn do_grab_reportee_collateral(&mut self, content_id: ContentId, collateral: Balance) -> (r: Result<
        (),
        DispatchError,
    >)
        ensures
            final(self).same_setup(*old(self)),
            final(self)@ == grab_collateral_step::<C>(old(self)@, old(self).config, content_id, collateral).0,
            r == grab_collateral_step::<C>(old(self)@, old(self).config, content_id, collateral).1,
    {
        let reportee = match self.reports.get(&content_id) {
            Some(report) => report.reportee_id,
            None => { return Err(DispatchError::Moderation(Error::NonexistentReport)); },
        };
        let _ = self.currency.unreserve(reportee, collateral);
        let treasury = self.account_id();
        self.transfer(reportee, treasury, collateral)
    }
}

} // verus!
