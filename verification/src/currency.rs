//! The balances that the moderation module draws on: the `Currency` interface
//! that a runtime supplies, and `Ledger`, a verified implementation of it.
use vstd::prelude::*;

use std::collections::BTreeMap;

use crate::system::{AccountId, Balance};

verus! {

/// Why the balances module refused a transfer.
#[derive(Clone, Copy, Debug, PartialEq, Eq, Structural)]
pub enum CurrencyError {
    /// The source account does not hold the amount.
    InsufficientBalance,
    /// The transfer would take the source account below the minimum balance.
    KeepAlive,
    /// The destination account would end up below the minimum balance.
    ExistentialDeposit,
    /// The destination balance would not fit the balance type.
    Overflow,
}

/// Free and reserved balances of every account; an account that is not in a
/// map holds nothing of that kind.
pub struct LedgerView {
    pub free: Map<AccountId, Balance>,
    pub reserved: Map<AccountId, Balance>,
    /// The smallest balance an account may keep (the existential deposit).
    pub minimum_balance: Balance,
}

pub open spec fn balance_in(m: Map<AccountId, Balance>, who: AccountId) -> Balance {
    if m.contains_key(who) {
        m[who]
    } else {
        0
    }
}

pub open spec fn min_nat(a: nat, b: nat) -> nat {
    if a <= b {
        a
    } else {
        b
    }
}

impl LedgerView {
    pub open spec fn free_of(self, who: AccountId) -> Balance {
        balance_in(self.free, who)
    }

    pub open spec fn reserved_of(self, who: AccountId) -> Balance {
        balance_in(self.reserved, who)
    }

    /// The ledger after `value` of free balance moved from `source` to `dest`.
    pub open spec fn after_transfer(self, source: AccountId, dest: AccountId, value: Balance) -> LedgerView {
        if source == dest || value == 0 {
            self
        } else {
            LedgerView {
                free: self.free.insert(source, (self.free_of(source) - value) as Balance).insert(
                    dest,
                    (self.free_of(dest) + value) as Balance,
                ),
                ..self
            }
        }
    }

    /// The free balance of `a` once `value` moved from `source` to `dest`.
    pub open spec fn free_after_move(self, a: AccountId, source: AccountId, dest: AccountId, value: Balance) -> int {
        if source == dest {
            self.free_of(a) as int
        } else if a == source {
            self.free_of(a) - value
        } else if a == dest {
            self.free_of(a) + value
        } else {
            self.free_of(a) as int
        }
    }

    /// `after` is this ledger with exactly `value` of free balance moved from
    /// `source` to `dest`, and nothing else changed.
    pub open spec fn moved_to(self, after: LedgerView, source: AccountId, dest: AccountId, value: Balance) -> bool {
        &&& forall|a: AccountId| #[trigger] after.free_of(a) == self.free_after_move(a, source, dest, value)
        &&& forall|a: AccountId| #[trigger] after.reserved_of(a) == self.reserved_of(a)
        &&& after.minimum_balance == self.minimum_balance
    }

    /// How much of `value` can be moved from the reserved balance of `who`.
    pub open spec fn unreserved_amount(self, who: AccountId, value: Balance) -> Balance {
        min_nat(value as nat, self.reserved_of(who) as nat) as Balance
    }

    /// The ledger after up to `value` of `who`'s reserved balance became free.
    pub open spec fn after_unreserve(self, who: AccountId, value: Balance) -> LedgerView {
        if value == 0 || self.free_of(who) + self.reserved_of(who) == 0 {
            self
        } else {
            let actual = self.unreserved_amount(who, value);
            LedgerView {
                free: self.free.insert(
                    who,
                    min_nat((self.free_of(who) + actual) as nat, u128::MAX as nat) as Balance,
                ),
                reserved: self.reserved.insert(who, (self.reserved_of(who) - actual) as Balance),
                ..self
            }
        }
    }
}

/// What the moderation module needs from the runtime's balances module.
///
/// `transfer` keeps the source account alive; whether it succeeds, and with
/// which error it fails, is decided by `transfer_outcome` on the current
/// ledger, and a refused transfer changes nothing.
pub trait Currency: Sized {
    spec fn ledger(&self) -> LedgerView;

    spec fn transfer_outcome(ledger: LedgerView, source: AccountId, dest: AccountId, value: Balance) -> Result<
        (),
        CurrencyError,
    >;

    /// A transfer that succeeds found the amount in the source account and
    /// fits the destination account.
    proof fn lemma_transfer_within_balances(ledger: LedgerView, source: AccountId, dest: AccountId, value: Balance)
        requires
            Self::transfer_outcome(ledger, source, dest, value) is Ok,
            source != dest,
            value != 0,
        ensures
            value <= ledger.free_of(source),
            ledger.free_of(dest) + value <= u128::MAX,
    ;

    fn transfer(&mut self, source: AccountId, dest: AccountId, value: Balance) -> (r: Result<
        (),
        CurrencyError,
    >)
        ensures
            r == Self::transfer_outcome(old(self).ledger(), source, dest, value),
            r is Ok && source != dest && value != 0 ==> value <= old(self).ledger().free_of(source)
                && old(self).ledger().free_of(dest) + value <= u128::MAX,
            r is Ok ==> final(self).ledger() == old(self).ledger().after_transfer(source, dest, value),
            r is Err ==> final(self).ledger() == old(self).ledger(),
    ;

    /// Moves up to `value` from the reserved to the free balance of `who`, and
    /// returns the part of `value` that could not be moved.
    fn unreserve(&mut self, who: AccountId, value: Balance) -> (r: Balance)
        ensures
            final(self).ledger() == old(self).ledger().after_unreserve(who, value),
            r == value - old(self).ledger().unreserved_amount(who, value),
    ;

    /// A copy of the balances, to go back to when a call fails.
    fn checkpoint(&self) -> (r: Self)
        ensures
            r.ledger() == self.ledger(),
    ;
}

/// A plain in-memory balances module.
pub struct Ledger {
    pub free: BTreeMap<AccountId, Balance>,
    pub reserved: BTreeMap<AccountId, Balance>,
    pub existential_deposit: Balance,
}

fn get_or_zero(m: &BTreeMap<AccountId, Balance>, who: AccountId) -> (r: Balance)
    ensures
        r == balance_in(m@, who),
{
    match m.get(&who) {
        Some(b) => *b,
        None => 0,
    }
}

impl Ledger {
    /// A ledger where nobody holds anything.
    pub fn new(existential_deposit: Balance) -> (r: Ledger)
        ensures
            r.ledger() == (LedgerView {
                free: Map::empty(),
                reserved: Map::empty(),
                minimum_balance: existential_deposit,
            }),
    {
        Ledger { free: BTreeMap::new(), reserved: BTreeMap::new(), existential_deposit }
    }

    pub fn free_balance(&self, who: AccountId) -> (r: Balance)
        ensures
            r == self.ledger().free_of(who),
    {
        get_or_zero(&self.free, who)
    }

    pub fn reserved_balance(&self, who: AccountId) -> (r: Balance)
        ensures
            r == self.ledger().reserved_of(who),
    {
        get_or_zero(&self.reserved, who)
    }

    /// Sets the free balance of `who`.
    pub fn set_free_balance(&mut self, who: AccountId, value: Balance)
        ensures
            final(self).ledger() == (LedgerView {
                free: old(self).ledger().free.insert(who, value),
                ..old(self).ledger()
            }),
    {
        self.free.insert(who, value);
    }

    /// Moves `value` from the free to the reserved balance of `who`.
    pub fn reserve(&mut self, who: AccountId, value: Balance) -> (r: Result<(), CurrencyError>)
        ensures
            r is Ok <==> value <= old(self).ledger().free_of(who) && old(self).ledger().reserved_of(
                who,
            ) + value <= u128::MAX,
            r is Ok ==> final(self).ledger() == (LedgerView {
                free: old(self).ledger().free.insert(
                    who,
                    (old(self).ledger().free_of(who) - value) as Balance,
                ),
                reserved: old(self).ledger().reserved.insert(
                    who,
                    (old(self).ledger().reserved_of(who) + value) as Balance,
                ),
                ..old(self).ledger()
            }),
            r is Err ==> final(self).ledger() == old(self).ledger(),
    {
        let free = get_or_zero(&self.free, who);
        let reserved = get_or_zero(&self.reserved, who);
        if value > free {
            return Err(CurrencyError::InsufficientBalance);
        }
        if reserved > u128::MAX - value {
            return Err(CurrencyError::Overflow);
        }
        self.free.insert(who, free - value);
        self.reserved.insert(who, reserved + value);
        Ok(())
    }
}

impl Currency for Ledger {
    open spec fn ledger(&self) -> LedgerView {
        LedgerView { free: self.free@, reserved: self.reserved@, minimum_balance: self.existential_deposit }
    }

    open spec fn transfer_outcome(ledger: LedgerView, source: AccountId, dest: AccountId, value: Balance) -> Result<
        (),
        CurrencyError,
    > {
        if source == dest || value == 0 {
            Ok(())
        } else if value > ledger.free_of(source) {
            Err(CurrencyError::InsufficientBalance)
        } else if ledger.free_of(source) - value < ledger.minimum_balance {
            Err(CurrencyError::KeepAlive)
        } else if ledger.free_of(dest) + value > u128::MAX {
            Err(CurrencyError::Overflow)
        } else if ledger.free_of(dest) + value < ledger.minimum_balance {
            Err(CurrencyError::ExistentialDeposit)
        } else {
            Ok(())
        }
    }

    proof fn lemma_transfer_within_balances(ledger: LedgerView, source: AccountId, dest: AccountId, value: Balance) {
    }

    fn transfer(&mut self, source: AccountId, dest: AccountId, value: Balance) -> (r: Result<
        (),
        CurrencyError,
    >) {
        if source == dest || value == 0 {
            return Ok(());
        }
        let from = get_or_zero(&self.free, source);
        let to = get_or_zero(&self.free, dest);
        if value > from {
            return Err(CurrencyError::InsufficientBalance);
        }
        if from - value < self.existential_deposit {
            return Err(CurrencyError::KeepAlive);
        }
        if to > u128::MAX - value {
            return Err(CurrencyError::Overflow);
        }
        if to + value < self.existential_deposit {
            return Err(CurrencyError::ExistentialDeposit);
        }
        self.free.insert(source, from - value);
        self.free.insert(dest, to + value);
        Ok(())
    }

    fn unreserve(&mut self, who: AccountId, value: Balance) -> (r: Balance) {
        let free = get_or_zero(&self.free, who);
        let reserved = get_or_zero(&self.reserved, who);
        if value == 0 || (free == 0 && reserved == 0) {
            return value;
        }
        let actual = if value <= reserved {
            value
        } else {
            reserved
        };
        let new_free = if free <= u128::MAX - actual {
            free + actual
        } else {
            u128::MAX
        };
        self.free.insert(who, new_free);
        self.reserved.insert(who, reserved - actual);
        value - actual
    }

    fn checkpoint(&self) -> (r: Self) {
        Ledger {
            free: self.free.clone(),
            reserved: self.reserved.clone(),
            existential_deposit: self.existential_deposit,
        }
    }
}

/// A transfer that finds the amount in the source account and fits the
/// destination moves funds without creating or destroying any: the two
/// balances change by the amount in opposite directions, and every other
/// balance, free or reserved, stays.
pub proof fn lemma_transfer_conserves(ledger: LedgerView, source: AccountId, dest: AccountId, value: Balance)
    requires
        source != dest && value != 0 ==> value <= ledger.free_of(source) && ledger.free_of(dest) + value
            <= u128::MAX,
    ensures
        ledger.moved_to(ledger.after_transfer(source, dest, value), source, dest, value),
{
}

/// Sending an amount to an account and then back leaves every free balance
/// as it was.
pub proof fn lemma_transfer_round_trip(ledger: LedgerView, who: AccountId, vault: AccountId, value: Balance)
    requires
        who != vault && value != 0 ==> value <= ledger.free_of(who) && ledger.free_of(vault) + value <= u128::MAX,
    ensures
        forall|a: AccountId|
            #[trigger] ledger.after_transfer(who, vault, value).after_transfer(vault, who, value).free_of(a)
                == ledger.free_of(a),
{
}

/// With this ledger, once an amount reached the vault it can be sent back,
/// provided the vault held at least the minimum balance before: the second
/// transfer is accepted and every free balance is as it was.
pub proof fn lemma_ledger_round_trip(ledger: LedgerView, who: AccountId, vault: AccountId, value: Balance)
    requires
        <Ledger as Currency>::transfer_outcome(ledger, who, vault, value) is Ok,
        ledger.free_of(vault) >= ledger.minimum_balance,
    ensures
        <Ledger as Currency>::transfer_outcome(ledger.after_transfer(who, vault, value), vault, who, value) is Ok,
        forall|a: AccountId|
            #[trigger] ledger.after_transfer(who, vault, value).after_transfer(vault, who, value).free_of(a)
                == ledger.free_of(a),
{
}

} // verus!
