//! The OUTPACE module: opening a channel locks its deposit; before expiry,
//! anyone the validators' balance tree credits withdraws their earnings;
//! after expiry, the creator takes back what is left.
//!
//! Each call checks its conditions in the order the runtime module does.
//! An opened channel always has its deposit locked: an open that cannot take
//! the deposit changes nothing. A withdrawal refused for exceeding the
//! deposit still records the sender's amount, which is written before that
//! check.

use vstd::prelude::*;
use crate::balances::{credit, debit, Balances};
use crate::channel::{Channel, ChannelState};
use crate::codec::{encode_word, word_views};
use crate::error::Error;
use crate::merkle::{
    accepted_count, balance_leaf, balance_leaf_of, count_valid_signatures, fold_path,
    is_supermajority, merkle_root, signature_views, supermajority,
};
use crate::crypto::{hash_pair, pair_hash};
use crate::bytes::bytes_eq;
use crate::table::{amount_at, Table};

verus! {

/// Who made a call.
#[derive(Clone, Copy, Debug)]
pub enum Origin {
    /// The chain itself.
    Root,
    /// An account that signed the call.
    Signed([u8; 32]),
    /// An inherent, put in the block by its author.
    Inherent,
}

/// The account that signed the call, if one did.
pub open spec fn signer(origin: Origin) -> Option<Seq<u8>> {
    match origin {
        Origin::Signed(who) => Some(who@),
        _ => None,
    }
}

/// What a successful call reports.
#[derive(Clone, Copy, Debug)]
pub enum Event {
    /// A channel with this hash was opened.
    ChannelOpen([u8; 32]),
    /// The creator of the channel with this hash took back this amount.
    ChannelWithdrawExpired([u8; 32], u128),
    /// This account withdrew this amount from the channel with this hash.
    ChannelWithdraw([u8; 32], [u8; 32], u128),
}

/// The storage the module reads and writes, as maps over byte strings.
pub struct Ledger {
    /// The state of each channel, by channel hash.
    pub state: Map<Seq<u8>, ChannelState>,
    /// How much was withdrawn from each channel before its expiry, by channel hash.
    pub withdrawn: Map<Seq<u8>, u128>,
    /// How much each account withdrew from each channel, by channel hash followed by account.
    pub withdrawn_per_user: Map<Seq<u8>, u128>,
    /// The free balance of each account.
    pub free: Map<Seq<u8>, u128>,
    /// The time of the current block.
    pub now: u64,
}

/// The key under which the withdrawals of `who` from channel `hash` are kept.
pub open spec fn user_key(hash: Seq<u8>, who: Seq<u8>) -> Seq<u8> {
    hash + who
}

/// Whether `channel`, with hash `hash`, is open in `m`.
pub open spec fn is_active(m: Ledger, hash: Seq<u8>) -> bool {
    m.state.contains_key(hash) && m.state[hash] == ChannelState::Active
}

// ---------------------------------------------------------------- channel_open

/// The refusal of `channel_open`, if any, given the channel's hash.
pub open spec fn open_error(m: Ledger, origin: Origin, channel: Channel, hash: Seq<u8>) -> Option<Error> {
    match signer(origin) {
        None => Some(Error::BadOrigin),
        Some(sender) => if sender != channel.creator@ {
            Some(Error::SenderNotCreator)
        } else if !channel.valid() {
            Some(Error::InvalidChannel)
        } else if m.state.contains_key(hash) {
            Some(Error::ChannelExists)
        } else if amount_at(m.free, channel.creator@) < channel.deposit {
            Some(Error::InsufficientFunds)
        } else {
            None
        },
    }
}

/// The storage after `channel_open`: when every check passes, the channel
/// is recorded as active and its deposit is taken from the creator; a
/// refusal changes nothing.
pub open spec fn open_next(m: Ledger, origin: Origin, channel: Channel, hash: Seq<u8>) -> Ledger {
    match open_error(m, origin, channel, hash) {
        None => Ledger {
            state: m.state.insert(hash, ChannelState::Active),
            free: debit(m.free, channel.creator@, channel.deposit as nat),
            ..m
        },
        Some(_) => m,
    }
}

// ---------------------------------------------------- channel_withdraw_expired

/// What the creator takes back from an expired channel: the deposit less
/// what was withdrawn from it.
pub open spec fn expired_payout(m: Ledger, channel: Channel, hash: Seq<u8>) -> int {
    channel.deposit - amount_at(m.withdrawn, hash)
}

/// The refusal of `channel_withdraw_expired`, if any, given the channel's hash.
/// `Overflow` stands for the inputs on which the payout is negative (only a
/// channel whose hash collides with another's) or the creator's balance
/// would leave the range of `u128`.
pub open spec fn expired_error(m: Ledger, origin: Origin, channel: Channel, hash: Seq<u8>) -> Option<Error> {
    match signer(origin) {
        None => Some(Error::BadOrigin),
        Some(sender) => if sender != channel.creator@ {
            Some(Error::SenderNotCreator)
        } else if !is_active(m, hash) {
            Some(Error::ChannelNotActive)
        } else if !(m.now > channel.valid_until) {
            Some(Error::ChannelNotExpired)
        } else if expired_payout(m, channel, hash) < 0 || amount_at(m.free, channel.creator@)
            + expired_payout(m, channel, hash) > u128::MAX {
            Some(Error::Overflow)
        } else {
            None
        },
    }
}

/// The storage after `channel_withdraw_expired`: on success the channel is
/// expired and the creator is paid; a refusal changes nothing.
pub open spec fn expired_next(m: Ledger, origin: Origin, channel: Channel, hash: Seq<u8>) -> Ledger {
    match expired_error(m, origin, channel, hash) {
        None => Ledger {
            state: m.state.insert(hash, ChannelState::Expired),
            free: credit(m.free, channel.creator@, expired_payout(m, channel, hash) as nat),
            ..m
        },
        Some(_) => m,
    }
}

// ------------------------------------------------------------ channel_withdraw

/// What `who` has withdrawn from the channel `hash` so far.
pub open spec fn withdrawn_so_far(m: Ledger, hash: Seq<u8>, who: Seq<u8>) -> nat {
    amount_at(m.withdrawn_per_user, user_key(hash, who))
}

/// The refusal of `channel_withdraw`, if any, given the channel's hash, the
/// number of signatures, how many of them the validators accept, and the
/// root that the proof leads to from the sender's balance leaf.
/// `Overflow` stands for the inputs on which the sender's balance would
/// leave the range of `u128`.
pub open spec fn withdraw_error(
    m: Ledger,
    origin: Origin,
    channel: Channel,
    hash: Seq<u8>,
    state_root: Seq<u8>,
    signature_count: nat,
    valid_signatures: nat,
    proven_root: Seq<u8>,
    amount_in_tree: u128,
) -> Option<Error> {
    match signer(origin) {
        None => Some(Error::BadOrigin),
        Some(sender) => if !is_active(m, hash) {
            Some(Error::ChannelNotActive)
        } else if !(m.now <= channel.valid_until) {
            Some(Error::ChannelExpired)
        } else if signature_count != channel.validators@.len() {
            Some(Error::SignatureCountMismatch)
        } else if !supermajority(valid_signatures, channel.validators@.len()) {
            Some(Error::NoSupermajority)
        } else if state_root != proven_root {
            Some(Error::BalanceLeafNotFound)
        } else if !(amount_in_tree > withdrawn_so_far(m, hash, sender)) {
            Some(Error::NothingToWithdraw)
        } else if amount_at(m.withdrawn, hash) + (amount_in_tree - withdrawn_so_far(m, hash, sender))
            > channel.deposit {
            Some(Error::DepositExceeded)
        } else if amount_at(m.free, sender) + (amount_in_tree - withdrawn_so_far(m, hash, sender))
            > u128::MAX {
            Some(Error::Overflow)
        } else {
            None
        },
    }
}

/// The storage after `channel_withdraw`. The sender's withdrawn amount is
/// raised to `amount_in_tree` once the proof is accepted and the amount is
/// new, before the deposit is checked; on success the channel's withdrawn
/// total grows by the difference and the sender is paid it.
pub open spec fn withdraw_next(
    m: Ledger,
    origin: Origin,
    channel: Channel,
    hash: Seq<u8>,
    state_root: Seq<u8>,
    signature_count: nat,
    valid_signatures: nat,
    proven_root: Seq<u8>,
    amount_in_tree: u128,
) -> Ledger {
    let sender = signer(origin).unwrap();
    let to_withdraw = amount_in_tree - withdrawn_so_far(m, hash, sender);
    match withdraw_error(
        m,
        origin,
        channel,
        hash,
        state_root,
        signature_count,
        valid_signatures,
        proven_root,
        amount_in_tree,
    ) {
        None => Ledger {
            withdrawn_per_user: m.withdrawn_per_user.insert(user_key(hash, sender), amount_in_tree),
            withdrawn: m.withdrawn.insert(hash, (amount_at(m.withdrawn, hash) + to_withdraw) as u128),
            free: credit(m.free, sender, to_withdraw as nat),
            ..m
        },
        Some(Error::DepositExceeded) => Ledger {
            withdrawn_per_user: m.withdrawn_per_user.insert(user_key(hash, sender), amount_in_tree),
            ..m
        },
        Some(_) => m,
    }
}

/// The root that `path` leads to from the balance leaf of the signer for
/// `amount_in_tree` (empty when the call is not signed).
pub open spec fn proven_root(origin: Origin, amount_in_tree: u128, path: Seq<[u8; 32]>) -> Seq<u8> {
    match signer(origin) {
        Some(sender) => merkle_root(balance_leaf(sender, amount_in_tree), word_views(path)),
        None => Seq::empty(),
    }
}

/// The message the validators sign: the hash of the pair (channel hash, state root).
pub open spec fn signed_message(hash: Seq<u8>, state_root: Seq<u8>) -> Seq<u8> {
    pair_hash(hash, state_root)
}

/// The storage of the OUTPACE module, with the free balances and the block
/// time that it reads.
pub struct Outpace {
    state: Table<ChannelState>,
    withdrawn: Table<u128>,
    withdrawn_per_user: Table<u128>,
    balances: Balances,
    now: u64,
}

impl View for Outpace {
    type V = Ledger;

    closed spec fn view(&self) -> Ledger {
        Ledger {
            state: self.state@,
            withdrawn: self.withdrawn@,
            withdrawn_per_user: self.withdrawn_per_user@,
            free: self.balances@,
            now: self.now,
        }
    }
}

/// The key of `who`'s withdrawals from channel `hash`.
fn user_key_of(hash: &[u8; 32], who: &[u8; 32]) -> (key: Vec<u8>)
    ensures
        key@ == user_key(hash@, who@),
{
    let mut key = encode_word(hash);
    let mut account = encode_word(who);
    key.append(&mut account);
    key
}

impl Outpace {
    pub closed spec fn wf(&self) -> bool {
        &&& self.state.wf()
        &&& self.withdrawn.wf()
        &&& self.withdrawn_per_user.wf()
        &&& self.balances.wf()
    }

    /// Empty storage at time `now`.
    pub fn new(now: u64) -> (o: Self)
        ensures
            o.wf(),
            o@ == (Ledger {
                state: Map::empty(),
                withdrawn: Map::empty(),
                withdrawn_per_user: Map::empty(),
                free: Map::empty(),
                now: now,
            }),
    {
        Outpace {
            state: Table::new(),
            withdrawn: Table::new(),
            withdrawn_per_user: Table::new(),
            balances: Balances::new(),
            now,
        }
    }

    /// The time of the current block.
    pub fn now(&self) -> (t: u64)
        ensures
            t == self@.now,
    {
        self.now
    }

    /// Sets the time of the current block.
    pub fn set_now(&mut self, now: u64)
        requires
            old(self).wf(),
        ensures
            final(self).wf(),
            final(self)@ == (Ledger { now: now, ..old(self)@ }),
    {
        self.now = now;
    }

    /// The free balance of `who`.
    pub fn free_balance(&self, who: &[u8; 32]) -> (amount: u128)
        requires
            self.wf(),
        ensures
            amount == amount_at(self@.free, who@),
    {
        self.balances.free_balance(who)
    }

    /// Sets the free balance of `who`.
    pub fn set_free_balance(&mut self, who: &[u8; 32], amount: u128)
        requires
            old(self).wf(),
        ensures
            final(self).wf(),
            final(self)@ == (Ledger { free: old(self)@.free.insert(who@, amount), ..old(self)@ }),
    {
        self.balances.set_free_balance(who, amount);
    }

    /// The state of the channel with hash `hash`, if it was ever opened.
    pub fn state(&self, hash: &[u8; 32]) -> (s: Option<ChannelState>)
        requires
            self.wf(),
        ensures
            s == (if self@.state.contains_key(hash@) {
                Some(self@.state[hash@])
            } else {
                None
            }),
    {
        self.state.get(encode_word(hash).as_slice())
    }

    /// How much was withdrawn from the channel `hash` before its expiry.
    pub fn withdrawn(&self, hash: &[u8; 32]) -> (amount: u128)
        requires
            self.wf(),
        ensures
            amount == amount_at(self@.withdrawn, hash@),
    {
        match self.withdrawn.get(encode_word(hash).as_slice()) {
            Some(v) => v,
            None => 0,
        }
    }

    /// How much `who` withdrew from the channel `hash`.
    pub fn withdrawn_per_user(&self, hash: &[u8; 32], who: &[u8; 32]) -> (amount: u128)
        requires
            self.wf(),
        ensures
            amount == amount_at(self@.withdrawn_per_user, user_key(hash@, who@)),
    {
        match self.withdrawn_per_user.get(user_key_of(hash, who).as_slice()) {
            Some(v) => v,
            None => 0,
        }
    }

    /// `channel_open` once the channel's hash is known: checks the sender, the
    /// validators and that the hash is new, records the channel as active and
    /// takes the deposit from the creator.
    pub fn open_with_hash(&mut self, origin: &Origin, channel: &Channel, hash: &[u8; 32]) -> (r: Result<Event, Error>)
        requires
            old(self).wf(),
        ensures
            final(self).wf(),
            final(self)@ == open_next(old(self)@, *origin, *channel, hash@),
            match open_error(old(self)@, *origin, *channel, hash@) {
                None => r matches Ok(Event::ChannelOpen(h)) && h@ == hash@,
                Some(e) => r == Err::<Event, Error>(e),
            },
    {
        let sender = match origin {
            Origin::Signed(who) => who,
            _ => return Err(Error::BadOrigin),
        };
        if !bytes_eq(sender, &channel.creator) {
            return Err(Error::SenderNotCreator);
        }
        if !channel.is_valid() {
            return Err(Error::InvalidChannel);
        }
        let key = encode_word(hash);
        if self.state.get(key.as_slice()).is_some() {
            return Err(Error::ChannelExists);
        }
        if self.balances.free_balance(&channel.creator) < channel.deposit {
            return Err(Error::InsufficientFunds);
        }
        self.state.insert(key, ChannelState::Active);
        match self.balances.decrease_free_balance(&channel.creator, channel.deposit) {
            Ok(()) => {},
            Err(e) => return Err(e),
        }
        Ok(Event::ChannelOpen(*hash))
    }

    /// Opens `channel`: the signed sender must be its creator, it must have
    /// between 2 and 256 validators and must not have been opened before; it
    /// is then recorded as active and its deposit is taken from the creator.
    pub fn channel_open(&mut self, origin: &Origin, channel: &Channel) -> (r: Result<Event, Error>)
        requires
            old(self).wf(),
            channel.encodable(),
        ensures
            final(self).wf(),
            final(self)@ == open_next(old(self)@, *origin, *channel, channel.hash()),
            match open_error(old(self)@, *origin, *channel, channel.hash()) {
                None => r matches Ok(Event::ChannelOpen(h)) && h@ == channel.hash(),
                Some(e) => r == Err::<Event, Error>(e),
            },
    {
        let hash = channel.hash_of();
        self.open_with_hash(origin, channel, &hash)
    }

    /// `channel_withdraw_expired` once the channel's hash is known: the
    /// creator of an active channel whose time is over marks it expired and
    /// takes back its deposit less what was withdrawn from it.
    pub fn withdraw_expired_with_hash(&mut self, origin: &Origin, channel: &Channel, hash: &[u8; 32]) -> (r: Result<Event, Error>)
        requires
            old(self).wf(),
        ensures
            final(self).wf(),
            final(self)@ == expired_next(old(self)@, *origin, *channel, hash@),
            match expired_error(old(self)@, *origin, *channel, hash@) {
                None => r matches Ok(Event::ChannelWithdrawExpired(h, amount)) && h@ == hash@
                    && amount == expired_payout(old(self)@, *channel, hash@),
                Some(e) => r == Err::<Event, Error>(e),
            },
    {
        let sender = match origin {
            Origin::Signed(who) => who,
            _ => return Err(Error::BadOrigin),
        };
        if !bytes_eq(sender, &channel.creator) {
            return Err(Error::SenderNotCreator);
        }
        let key = encode_word(hash);
        match self.state.get(key.as_slice()) {
            Some(ChannelState::Active) => {},
            _ => return Err(Error::ChannelNotActive),
        }
        if !(self.now > channel.valid_until) {
            return Err(Error::ChannelNotExpired);
        }
        let withdrawn = self.withdrawn(hash);
        if withdrawn > channel.deposit {
            return Err(Error::Overflow);
        }
        let to_withdraw = channel.deposit - withdrawn;
        let free = self.balances.free_balance(&channel.creator);
        if free > u128::MAX - to_withdraw {
            return Err(Error::Overflow);
        }
        self.state.insert(key, ChannelState::Expired);
        self.balances.increase_free_balance_creating(&channel.creator, to_withdraw);
        Ok(Event::ChannelWithdrawExpired(*hash, to_withdraw))
    }

    /// Closes an expired channel: the signed sender must be its creator, the
    /// channel must be active and its time over; it is marked expired and the
    /// creator gets back the deposit less what was withdrawn from it.
    pub fn channel_withdraw_expired(&mut self, origin: &Origin, channel: &Channel) -> (r: Result<Event, Error>)
        requires
            old(self).wf(),
            channel.encodable(),
        ensures
            final(self).wf(),
            final(self)@ == expired_next(old(self)@, *origin, *channel, channel.hash()),
            match expired_error(old(self)@, *origin, *channel, channel.hash()) {
                None => r matches Ok(Event::ChannelWithdrawExpired(h, amount)) && h@ == channel.hash()
                    && amount == expired_payout(old(self)@, *channel, channel.hash()),
                Some(e) => r == Err::<Event, Error>(e),
            },
    {
        let hash = channel.hash_of();
        self.withdraw_expired_with_hash(origin, channel, &hash)
    }

    /// `channel_withdraw` once the digests are known: the channel's hash, the
    /// number of signatures and how many of them the validators accept, and
    /// the root that the proof leads to from the sender's balance leaf.
    pub fn withdraw_with_digests(
        &mut self,
        origin: &Origin,
        channel: &Channel,
        hash: &[u8; 32],
        state_root: &[u8; 32],
        signature_count: usize,
        valid_signatures: usize,
        proven_root: &[u8; 32],
        amount_in_tree: u128,
    ) -> (r: Result<Event, Error>)
        requires
            old(self).wf(),
        ensures
            final(self).wf(),
            final(self)@ == withdraw_next(
                old(self)@,
                *origin,
                *channel,
                hash@,
                state_root@,
                signature_count as nat,
                valid_signatures as nat,
                proven_root@,
                amount_in_tree,
            ),
            match withdraw_error(
                old(self)@,
                *origin,
                *channel,
                hash@,
                state_root@,
                signature_count as nat,
                valid_signatures as nat,
                proven_root@,
                amount_in_tree,
            ) {
                None => r matches Ok(Event::ChannelWithdraw(who, h, amount)) && Some(who@) == signer(*origin)
                    && h@ == hash@ && amount == amount_in_tree - withdrawn_so_far(
                    old(self)@,
                    hash@,
                    who@,
                ),
                Some(e) => r == Err::<Event, Error>(e),
            },
    {
        let sender = match origin {
            Origin::Signed(who) => who,
            _ => return Err(Error::BadOrigin),
        };
        let key = encode_word(hash);
        match self.state.get(key.as_slice()) {
            Some(ChannelState::Active) => {},
            _ => return Err(Error::ChannelNotActive),
        }
        if !(self.now <= channel.valid_until) {
            return Err(Error::ChannelExpired);
        }
        if signature_count != channel.validators.len() {
            return Err(Error::SignatureCountMismatch);
        }
        if !is_supermajority(valid_signatures, channel.validators.len()) {
            return Err(Error::NoSupermajority);
        }
        if !bytes_eq(state_root, proven_root) {
            return Err(Error::BalanceLeafNotFound);
        }
        let user = user_key_of(hash, sender);
        let so_far = match self.withdrawn_per_user.get(user.as_slice()) {
            Some(v) => v,
            None => 0,
        };
        if !(amount_in_tree > so_far) {
            return Err(Error::NothingToWithdraw);
        }
        let to_withdraw = amount_in_tree - so_far;
        let total_before = self.withdrawn(hash);
        let exceeds = total_before > channel.deposit || to_withdraw > channel.deposit - total_before;
        if !exceeds {
            let free = self.balances.free_balance(sender);
            if free > u128::MAX - to_withdraw {
                return Err(Error::Overflow);
            }
        }
        self.withdrawn_per_user.insert(user, amount_in_tree);
        if exceeds {
            return Err(Error::DepositExceeded);
        }
        self.withdrawn.insert(key, total_before + to_withdraw);
        self.balances.increase_free_balance_creating(sender, to_withdraw);
        Ok(Event::ChannelWithdraw(*sender, *hash, to_withdraw))
    }

    /// Withdraws earnings from an active, unexpired channel: the validators
    /// must have signed `state_root` with a two-thirds majority, and `path`
    /// must lead from the sender's balance leaf for `amount_in_tree` to
    /// `state_root`; the sender is paid what the tree credits beyond what
    /// they withdrew before, as long as the channel's deposit covers it.
    pub fn channel_withdraw(
        &mut self,
        origin: &Origin,
        channel: &Channel,
        state_root: &[u8; 32],
        signatures: &Vec<[u8; 64]>,
        path: &Vec<[u8; 32]>,
        amount_in_tree: u128,
    ) -> (r: Result<Event, Error>)
        requires
            old(self).wf(),
            channel.encodable(),
        ensures
            final(self).wf(),
            final(self)@ == withdraw_next(
                old(self)@,
                *origin,
                *channel,
                channel.hash(),
                state_root@,
                signatures@.len(),
                accepted_count(
                    signature_views(signatures@),
                    word_views(channel.validators@),
                    signed_message(channel.hash(), state_root@),
                    signatures@.len(),
                ),
                proven_root(*origin, amount_in_tree, path@),
                amount_in_tree,
            ),
            match withdraw_error(
                old(self)@,
                *origin,
                *channel,
                channel.hash(),
                state_root@,
                signatures@.len(),
                accepted_count(
                    signature_views(signatures@),
                    word_views(channel.validators@),
                    signed_message(channel.hash(), state_root@),
                    signatures@.len(),
                ),
                proven_root(*origin, amount_in_tree, path@),
                amount_in_tree,
            ) {
                None => r matches Ok(Event::ChannelWithdraw(who, h, amount)) && Some(who@) == signer(*origin)
                    && h@ == channel.hash() && amount == amount_in_tree - withdrawn_so_far(
                    old(self)@,
                    channel.hash(),
                    who@,
                ),
                Some(e) => r == Err::<Event, Error>(e),
            },
    {
        let sender = match origin {
            Origin::Signed(who) => *who,
            _ => return Err(Error::BadOrigin),
        };
        let hash = channel.hash_of();
        let to_sign = hash_pair(&hash, state_root);
        let valid = if signatures.len() == channel.validators.len() {
            count_valid_signatures(signatures.as_slice(), channel.validators.as_slice(), to_sign.as_slice())
        } else {
            0
        };
        let leaf = balance_leaf_of(&sender, amount_in_tree);
        let root = fold_path(&leaf, path.as_slice());
        self.withdraw_with_digests(origin, channel, &hash, state_root, signatures.len(), valid, &root, amount_in_tree)
    }
}

} // verus!
