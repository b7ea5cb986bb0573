//! The earlier channel module: starting a channel takes its deposit from the
//! sender, and withdrawing an expired one pays the deposit back, with no
//! channel state kept.

use vstd::prelude::*;
use crate::balances::{credit, debit, Balances};
use crate::error::Error;
use crate::outpace::{signer, Origin};
use crate::table::amount_at;

verus! {

/// A channel as this module takes it.
#[derive(Clone, Debug)]
pub struct Channel {
    pub creator: [u8; 32],
    pub deposit: u128,
    pub valid_until: u64,
    pub validators: Vec<[u8; 32]>,
    pub spec: Vec<u8>,
}

/// The refusal of `channel_start`, if any.
pub open spec fn start_error(free: Map<Seq<u8>, u128>, origin: Origin, channel: Channel) -> Option<Error> {
    match signer(origin) {
        None => Some(Error::BadOrigin),
        Some(sender) => if amount_at(free, sender) < channel.deposit {
            Some(Error::InsufficientFunds)
        } else {
            None
        },
    }
}

/// Starts a channel: its deposit is taken from the signed sender.
pub fn channel_start(balances: &mut Balances, origin: &Origin, channel: &Channel) -> (r: Result<(), Error>)
    requires
        old(balances).wf(),
    ensures
        final(balances).wf(),
        match start_error(old(balances)@, *origin, *channel) {
            None => r == Ok::<(), Error>(()) && final(balances)@ == debit(
                old(balances)@,
                signer(*origin).unwrap(),
                channel.deposit as nat,
            ),
            Some(e) => r == Err::<(), Error>(e) && final(balances)@ == old(balances)@,
        },
{
    let sender = match origin {
        Origin::Signed(who) => who,
        _ => return Err(Error::BadOrigin),
    };
    balances.decrease_free_balance(sender, channel.deposit)
}

/// The refusal of `channel_withdraw_expired`, if any; `Overflow` stands for
/// the inputs on which the sender's balance would leave the range of `u128`.
pub open spec fn withdraw_expired_error(free: Map<Seq<u8>, u128>, origin: Origin, channel: Channel) -> Option<Error> {
    match signer(origin) {
        None => Some(Error::BadOrigin),
        Some(sender) => if amount_at(free, sender) + channel.deposit > u128::MAX {
            Some(Error::Overflow)
        } else {
            None
        },
    }
}

/// Pays the channel's deposit to the signed sender.
pub fn channel_withdraw_expired(balances: &mut Balances, origin: &Origin, channel: &Channel) -> (r: Result<(), Error>)
    requires
        old(balances).wf(),
    ensures
        final(balances).wf(),
        match withdraw_expired_error(old(balances)@, *origin, *channel) {
            None => r == Ok::<(), Error>(()) && final(balances)@ == credit(
                old(balances)@,
                signer(*origin).unwrap(),
                channel.deposit as nat,
            ),
            Some(e) => r == Err::<(), Error>(e) && final(balances)@ == old(balances)@,
        },
{
    let sender = match origin {
        Origin::Signed(who) => who,
        _ => return Err(Error::BadOrigin),
    };
    let free = balances.free_balance(sender);
    if free > u128::MAX - channel.deposit {
        return Err(Error::Overflow);
    }
    balances.increase_free_balance_creating(sender, channel.deposit);
    Ok(())
}

/// Withdrawing from a channel is accepted and changes nothing.
pub fn channel_withdraw(origin: &Origin, channel: &Channel) -> (r: Result<(), Error>)
    ensures
        r == Ok::<(), Error>(()),
{
    Ok(())
}

} // verus!
