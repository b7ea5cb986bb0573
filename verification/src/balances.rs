//! The free balances of accounts, which channel deposits are taken from and
//! withdrawals are paid into.
//!
//! This ledger has no existential deposit: a balance that falls below some
//! minimum is kept as it is, and no account is ever removed.

use vstd::prelude::*;
use crate::codec::encode_word;
use crate::error::Error;
use crate::table::{amount_at, Table};

verus! {

/// `m` after `amount` is added to the balance of `who`.
pub open spec fn credit(m: Map<Seq<u8>, u128>, who: Seq<u8>, amount: nat) -> Map<Seq<u8>, u128> {
    m.insert(who, (amount_at(m, who) + amount) as u128)
}

/// `m` after `amount` is taken from the balance of `who`.
pub open spec fn debit(m: Map<Seq<u8>, u128>, who: Seq<u8>, amount: nat) -> Map<Seq<u8>, u128> {
    m.insert(who, (amount_at(m, who) - amount) as u128)
}

/// Free balances, keyed by account id.
pub struct Balances {
    free: Table<u128>,
}

impl View for Balances {
    type V = Map<Seq<u8>, u128>;

    closed spec fn view(&self) -> Map<Seq<u8>, u128> {
        self.free@
    }
}

impl Balances {
    pub closed spec fn wf(&self) -> bool {
        self.free.wf()
    }

    /// No account holds anything.
    pub fn new() -> (b: Self)
        ensures
            b.wf(),
            b@ == Map::<Seq<u8>, u128>::empty(),
    {
        Balances { free: Table::new() }
    }

    /// The free balance of `who`.
    pub fn free_balance(&self, who: &[u8; 32]) -> (amount: u128)
        requires
            self.wf(),
        ensures
            amount == amount_at(self@, who@),
    {
        match self.free.get(encode_word(who).as_slice()) {
            Some(v) => v,
            None => 0,
        }
    }

    /// Sets the free balance of `who` to `amount`.
    pub fn set_free_balance(&mut self, who: &[u8; 32], amount: u128)
        requires
            old(self).wf(),
        ensures
            final(self).wf(),
            final(self)@ == old(self)@.insert(who@, amount),
    {
        self.free.insert(encode_word(who), amount);
    }

    /// Takes `value` from the free balance of `who`; refused, with nothing
    /// changed, when the balance is below `value`.
    pub fn decrease_free_balance(&mut self, who: &[u8; 32], value: u128) -> (r: Result<(), Error>)
        requires
            old(self).wf(),
        ensures
            final(self).wf(),
            amount_at(old(self)@, who@) < value ==> r == Err::<(), Error>(Error::InsufficientFunds)
                && final(self)@ == old(self)@,
            amount_at(old(self)@, who@) >= value ==> r == Ok::<(), Error>(())
                && final(self)@ == debit(old(self)@, who@, value as nat),
    {
        let b = self.free_balance(who);
        if b < value {
            return Err(Error::InsufficientFunds);
        }
        self.set_free_balance(who, b - value);
        Ok(())
    }

    /// Adds `value` to the free balance of `who`, creating the account if it
    /// held nothing.
    pub fn increase_free_balance_creating(&mut self, who: &[u8; 32], value: u128)
        requires
            old(self).wf(),
            amount_at(old(self)@, who@) + value <= u128::MAX,
        ensures
            final(self).wf(),
            final(self)@ == credit(old(self)@, who@, value as nat),
    {
        let b = self.free_balance(who);
        self.set_free_balance(who, b + value);
    }
}

} // verus!
