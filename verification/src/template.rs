//! A minimal module that stores one number.
use vstd::prelude::*;

use crate::system::{ensure_signed, AccountId, DispatchError, RawOrigin};

verus! {

#[derive(Clone, Copy, Debug, PartialEq, Eq, Structural)]
pub enum Event {
    /// A number was stored by an account.
    SomethingStored(u32, AccountId),
}

#[derive(Clone, Copy, Debug, PartialEq, Eq, Structural)]
pub enum Error {
    /// Nothing is stored yet.
    NoneValue,
    /// The stored number cannot be incremented.
    StorageOverflow,
}

/// Storage of the module: the stored number, if any, and the emitted events.
pub struct Pallet {
    pub something: Option<u32>,
    pub events: Vec<Event>,
}

impl Pallet {
    /// The module at genesis: nothing stored, no events.
    pub fn new() -> (r: Pallet)
        ensures
            r.something is None,
            r.events@ == Seq::<Event>::empty(),
    {
        Pallet { something: None, events: Vec::new() }
    }

    /// The stored number.
    pub fn something(&self) -> (r: Option<u32>)
        ensures
            r == self.something,
    {
        self.something
    }

    /// Stores `something` on behalf of the signer and records the event.
    pub fn do_something(&mut self, origin: RawOrigin, something: u32) -> (r: Result<(), DispatchError>)
        ensures
            match origin {
                RawOrigin::Signed(who) => {
                    &&& r is Ok
                    &&& final(self).something == Some(something)
                    &&& final(self).events@ == old(self).events@.push(
                        Event::SomethingStored(something, who),
                    )
                },
                _ => {
                    &&& r == Err::<(), DispatchError>(DispatchError::BadOrigin)
                    &&& final(self).something == old(self).something
                    &&& final(self).events@ == old(self).events@
                },
            },
    {
        let who = ensure_signed(origin)?;
        self.something = Some(something);
        self.events.push(Event::SomethingStored(something, who));
        Ok(())
    }

    /// Increments the stored number; fails when nothing is stored or the
    /// number is already the largest `u32`.
    pub fn cause_error(&mut self, origin: RawOrigin) -> (r: Result<(), DispatchError>)
        ensures
            final(self).events@ == old(self).events@,
            !(origin is Signed) ==> r == Err::<(), DispatchError>(DispatchError::BadOrigin),
            origin is Signed ==> match old(self).something {
                None => r == Err::<(), DispatchError>(DispatchError::Template(Error::NoneValue)),
                Some(old_value) => if old_value == u32::MAX {
                    r == Err::<(), DispatchError>(DispatchError::Template(Error::StorageOverflow))
                } else {
                    r is Ok && final(self).something == Some((old_value + 1) as u32)
                },
            },
            r is Err ==> final(self).something == old(self).something,
    {
        let _who = ensure_signed(origin)?;
        match self.something {
            None => Err(DispatchError::Template(Error::NoneValue)),
            Some(old_value) => {
                let new_value = match old_value.checked_add(1) {
                    Some(v) => v,
                    None => { return Err(DispatchError::Template(Error::StorageOverflow)); },
                };
                self.something = Some(new_value);
                Ok(())
            },
        }
    }
}

} // verus!
