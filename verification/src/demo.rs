//! A game: each player pays a fixed payment into a pot, and wins the pot
//! when a hash of the block's random seed and the player's account starts
//! with a byte below 128.

use vstd::prelude::*;
use crate::balances::{debit, Balances};
use crate::crypto::{blake2_256, hash_pair, pair_hash};
use crate::error::Error;
use crate::outpace::{signer, Origin};
use crate::table::amount_at;

verus! {

/// The game's storage: the payment, once set, and the pot.
#[derive(Clone, Copy, Debug)]
pub struct Demo {
    pub payment: Option<u128>,
    pub pot: u128,
}

/// Whether `player` wins with the block's random seed `seed`.
pub open spec fn wins(seed: Seq<u8>, player: Seq<u8>) -> bool {
    pair_hash(seed, player)[0] < 128
}

/// The refusal of `play`, if any. `Overflow` stands for the inputs on which
/// the pot or the winner's balance would leave the range of `u128`.
pub open spec fn play_error(d: Demo, free: Map<Seq<u8>, u128>, origin: Origin, seed: Seq<u8>) -> Option<Error> {
    match signer(origin) {
        None => Some(Error::BadOrigin),
        Some(player) => match d.payment {
            None => Some(Error::PaymentNotInitialised),
            Some(payment) => if amount_at(free, player) < payment {
                Some(Error::InsufficientFunds)
            } else if wins(seed, player) {
                if amount_at(free, player) - payment + d.pot > u128::MAX {
                    Some(Error::Overflow)
                } else {
                    None
                }
            } else if d.pot + payment > u128::MAX {
                Some(Error::Overflow)
            } else {
                None
            },
        },
    }
}

/// The game after a successful `play`: a winner empties the pot, and the
/// payment is then added to it.
pub open spec fn play_next(d: Demo, origin: Origin, seed: Seq<u8>) -> Demo {
    let payment = d.payment.unwrap();
    if wins(seed, signer(origin).unwrap()) {
        Demo { pot: payment, ..d }
    } else {
        Demo { pot: (d.pot + payment) as u128, ..d }
    }
}

/// The free balances after a successful `play`: the player pays, and a
/// winner receives the pot.
pub open spec fn play_free(d: Demo, free: Map<Seq<u8>, u128>, origin: Origin, seed: Seq<u8>) -> Map<Seq<u8>, u128> {
    let player = signer(origin).unwrap();
    let paid = debit(free, player, d.payment.unwrap() as nat);
    if wins(seed, player) {
        paid.insert(player, (amount_at(paid, player) + d.pot) as u128)
    } else {
        paid
    }
}

/// The game after `set_payment(value)`: the payment and the pot are set to
/// `value` unless a payment is set already.
pub open spec fn set_payment_next(d: Demo, value: u128) -> Demo {
    if d.payment is None {
        Demo { payment: Some(value), pot: value }
    } else {
        d
    }
}

impl Demo {
    /// A game as genesis leaves it: the payment configured, if at all, and an
    /// empty pot.
    pub fn new(payment: Option<u128>) -> (d: Self)
        ensures
            d.payment == payment,
            d.pot == 0,
    {
        Demo { payment, pot: 0 }
    }

    /// The signed player pays the payment; if the hash of the random seed and
    /// the player starts with a byte below 128, the player takes the pot.
    /// The payment then goes into the pot.
    pub fn play(&mut self, balances: &mut Balances, origin: &Origin, random_seed: &[u8; 32]) -> (r: Result<(), Error>)
        requires
            old(balances).wf(),
        ensures
            final(balances).wf(),
            match play_error(*old(self), old(balances)@, *origin, random_seed@) {
                None => r == Ok::<(), Error>(()) && *final(self) == play_next(*old(self), *origin, random_seed@)
                    && final(balances)@ == play_free(*old(self), old(balances)@, *origin, random_seed@),
                Some(e) => r == Err::<(), Error>(e) && *final(self) == *old(self) && final(balances)@ == old(balances)@,
            },
    {
        let player = match origin {
            Origin::Signed(who) => who,
            _ => return Err(Error::BadOrigin),
        };
        let payment = match self.payment {
            Some(p) => p,
            None => return Err(Error::PaymentNotInitialised),
        };
        let free = balances.free_balance(player);
        if free < payment {
            return Err(Error::InsufficientFunds);
        }
        let digest = hash_pair(random_seed, player);
        let won = digest[0] < 128;
        if won {
            if free - payment > u128::MAX - self.pot {
                return Err(Error::Overflow);
            }
        } else if self.pot > u128::MAX - payment {
            return Err(Error::Overflow);
        }
        match balances.decrease_free_balance(player, payment) {
            Ok(()) => {},
            Err(e) => return Err(e),
        }
        if won {
            let pot = self.pot;
            self.pot = 0;
            balances.increase_free_balance_creating(player, pot);
        }
        self.pot = self.pot + payment;
        Ok(())
    }

    /// Sets the payment and fills the pot with it, unless the payment is set already.
    pub fn set_payment(&mut self, origin: &Origin, value: u128) -> (r: Result<(), Error>)
        ensures
            r == Ok::<(), Error>(()),
            *final(self) == set_payment_next(*old(self), value),
    {
        if self.payment.is_none() {
            self.payment = Some(value);
            self.pot = value;
        }
        Ok(())
    }
}

/// Playing moves money only between the player and the pot: what the player
/// holds plus the pot is the same before and after.
pub proof fn lemma_play_conserves(d: Demo, free: Map<Seq<u8>, u128>, origin: Origin, seed: Seq<u8>)
    requires
        play_error(d, free, origin, seed) is None,
    ensures
        amount_at(play_free(d, free, origin, seed), signer(origin).unwrap()) + play_next(d, origin, seed).pot
            == amount_at(free, signer(origin).unwrap()) + d.pot,
{
}

/// The payment can be set only once: a second `set_payment` changes nothing.
pub proof fn lemma_payment_set_once(d: Demo, first: u128, second: u128)
    ensures
        set_payment_next(set_payment_next(d, first), second) == set_payment_next(d, first),
{
}

/// Who wins is decided by the first byte of the Blake2-256 hash of the
/// random seed followed by the player's account: below 128 the player takes
/// the pot and the pot then holds only the payment; otherwise the player's
/// payment is added to the pot. Either way the player pays the payment.
pub proof fn lemma_play_outcome(d: Demo, free: Map<Seq<u8>, u128>, origin: Origin, seed: Seq<u8>)
    requires
        play_error(d, free, origin, seed) is None,
    ensures
        ({
            let player = signer(origin).unwrap();
            let payment = d.payment.unwrap();
            let first_byte = blake2_256(seed + player)[0];
            let after = play_free(d, free, origin, seed);
            &&& first_byte < 128 ==> play_next(d, origin, seed).pot == payment
                && amount_at(after, player) == amount_at(free, player) - payment + d.pot
            &&& first_byte >= 128 ==> play_next(d, origin, seed).pot == d.pot + payment
                && amount_at(after, player) == amount_at(free, player) - payment
            &&& play_next(d, origin, seed).payment == d.payment
        }),
{
}

} // verus!
