//! What holds of the OUTPACE module across calls.

use vstd::prelude::*;
use crate::channel::{Channel, ChannelState};
use crate::error::Error;
use crate::crypto::blake2_256;
use crate::outpace::{
    expired_error, expired_next, expired_payout, open_error, open_next, signed_message, signer,
    user_key, withdraw_error, withdraw_next, withdrawn_so_far, Ledger, Origin,
};
use crate::table::amount_at;

verus! {

/// `after` keeps every channel that `before` records, and every expired
/// channel stays expired.
pub open spec fn states_kept(before: Ledger, after: Ledger) -> bool {
    forall|h: Seq<u8>|
        #[trigger] before.state.contains_key(h) ==> after.state.contains_key(h) && (before.state[h]
            == ChannelState::Expired ==> after.state[h] == ChannelState::Expired)
}

/// No amount any account withdrew from any channel goes down.
pub open spec fn user_withdrawals_kept(before: Ledger, after: Ledger) -> bool {
    forall|k: Seq<u8>|
        #[trigger] amount_at(before.withdrawn_per_user, k) <= amount_at(after.withdrawn_per_user, k)
}

/// No call forgets a channel or reopens an expired one, and no call lowers
/// what an account has withdrawn from a channel.
pub proof fn lemma_calls_keep_history(
    m: Ledger,
    origin: Origin,
    channel: Channel,
    hash: Seq<u8>,
    state_root: Seq<u8>,
    signature_count: nat,
    valid_signatures: nat,
    proven_root: Seq<u8>,
    amount_in_tree: u128,
)
    ensures
        states_kept(m, open_next(m, origin, channel, hash)),
        states_kept(m, expired_next(m, origin, channel, hash)),
        states_kept(
            m,
            withdraw_next(m, origin, channel, hash, state_root, signature_count, valid_signatures, proven_root, amount_in_tree),
        ),
        user_withdrawals_kept(m, open_next(m, origin, channel, hash)),
        user_withdrawals_kept(m, expired_next(m, origin, channel, hash)),
        user_withdrawals_kept(
            m,
            withdraw_next(m, origin, channel, hash, state_root, signature_count, valid_signatures, proven_root, amount_in_tree),
        ),
{
    let after = withdraw_next(m, origin, channel, hash, state_root, signature_count, valid_signatures, proven_root, amount_in_tree);
    assert forall|k: Seq<u8>| #[trigger] amount_at(m.withdrawn_per_user, k) <= amount_at(after.withdrawn_per_user, k) by {
        if withdraw_error(m, origin, channel, hash, state_root, signature_count, valid_signatures, proven_root, amount_in_tree)
            is None || withdraw_error(m, origin, channel, hash, state_root, signature_count, valid_signatures, proven_root, amount_in_tree)
            == Some(Error::DepositExceeded) {
            let sender = signer(origin).unwrap();
            if k == user_key(hash, sender) {
                assert(amount_in_tree > withdrawn_so_far(m, hash, sender));
            }
        }
    }
}

/// A channel can be opened only once: after a successful open, the same
/// call is refused because the channel exists.
pub proof fn lemma_open_only_once(m: Ledger, origin: Origin, channel: Channel, hash: Seq<u8>)
    requires
        open_error(m, origin, channel, hash) is None,
    ensures
        open_error(open_next(m, origin, channel, hash), origin, channel, hash) == Some(Error::ChannelExists),
{
}

/// Every open channel has its deposit locked: an open that is refused, for
/// lack of funds or any other reason, records no channel and takes nothing.
pub proof fn lemma_refused_open_changes_nothing(m: Ledger, origin: Origin, channel: Channel, hash: Seq<u8>)
    requires
        open_error(m, origin, channel, hash) is Some,
    ensures
        open_next(m, origin, channel, hash) == m,
{
}

/// Opening a channel takes exactly its deposit from the creator and records
/// it as active.
pub proof fn lemma_open_locks_deposit(m: Ledger, origin: Origin, channel: Channel, hash: Seq<u8>)
    requires
        open_error(m, origin, channel, hash) is None,
    ensures
        amount_at(open_next(m, origin, channel, hash).free, channel.creator@) + channel.deposit
            == amount_at(m.free, channel.creator@),
        open_next(m, origin, channel, hash).state[hash] == ChannelState::Active,
{
}

/// The remainder of an expired channel can be taken back only once.
pub proof fn lemma_expired_withdraw_only_once(m: Ledger, origin: Origin, channel: Channel, hash: Seq<u8>)
    requires
        expired_error(m, origin, channel, hash) is None,
    ensures
        expired_error(expired_next(m, origin, channel, hash), origin, channel, hash) == Some(
            Error::ChannelNotActive,
        ),
{
}

/// What was withdrawn before expiry and what the creator takes back after it
/// add up to the deposit, and the creator's balance grows by the latter.
pub proof fn lemma_expired_payout_completes_deposit(m: Ledger, origin: Origin, channel: Channel, hash: Seq<u8>)
    requires
        expired_error(m, origin, channel, hash) is None,
    ensures
        expired_payout(m, channel, hash) >= 0,
        amount_at(m.withdrawn, hash) + expired_payout(m, channel, hash) == channel.deposit,
        amount_at(expired_next(m, origin, channel, hash).free, channel.creator@) == amount_at(
            m.free,
            channel.creator@,
        ) + expired_payout(m, channel, hash),
{
}

/// A successful withdrawal pays the sender exactly what it adds to the
/// channel's withdrawn total, and that total stays within the deposit.
pub proof fn lemma_withdraw_accounted(
    m: Ledger,
    origin: Origin,
    channel: Channel,
    hash: Seq<u8>,
    state_root: Seq<u8>,
    signature_count: nat,
    valid_signatures: nat,
    proven_root: Seq<u8>,
    amount_in_tree: u128,
)
    requires
        withdraw_error(m, origin, channel, hash, state_root, signature_count, valid_signatures, proven_root, amount_in_tree)
            is None,
    ensures
        ({
            let after = withdraw_next(m, origin, channel, hash, state_root, signature_count, valid_signatures, proven_root, amount_in_tree);
            let sender = signer(origin).unwrap();
            &&& amount_at(after.withdrawn, hash) - amount_at(m.withdrawn, hash) == amount_at(after.free, sender)
                - amount_at(m.free, sender)
            &&& amount_at(after.withdrawn, hash) - amount_at(m.withdrawn, hash) == amount_in_tree
                - withdrawn_so_far(m, hash, sender)
            &&& amount_at(after.withdrawn, hash) <= channel.deposit
            &&& withdrawn_so_far(after, hash, sender) == amount_in_tree
        }),
{
}

/// The same earnings cannot be withdrawn twice: repeating a successful
/// withdrawal is refused, as the sender has already withdrawn that amount.
pub proof fn lemma_withdraw_not_repeatable(
    m: Ledger,
    origin: Origin,
    channel: Channel,
    hash: Seq<u8>,
    state_root: Seq<u8>,
    signature_count: nat,
    valid_signatures: nat,
    proven_root: Seq<u8>,
    amount_in_tree: u128,
)
    requires
        withdraw_error(m, origin, channel, hash, state_root, signature_count, valid_signatures, proven_root, amount_in_tree)
            is None,
    ensures
        withdraw_error(
            withdraw_next(m, origin, channel, hash, state_root, signature_count, valid_signatures, proven_root, amount_in_tree),
            origin,
            channel,
            hash,
            state_root,
            signature_count,
            valid_signatures,
            proven_root,
            amount_in_tree,
        ) == Some(Error::NothingToWithdraw),
{
}

/// At no block can a channel be both withdrawn from by an earner and closed
/// by its creator: the first needs the time not to be past `valid_until`,
/// the second needs it to be.
pub proof fn lemma_withdraw_and_expiry_exclusive(
    m: Ledger,
    earner: Origin,
    creator: Origin,
    channel: Channel,
    hash: Seq<u8>,
    state_root: Seq<u8>,
    signature_count: nat,
    valid_signatures: nat,
    proven_root: Seq<u8>,
    amount_in_tree: u128,
)
    ensures
        !(withdraw_error(m, earner, channel, hash, state_root, signature_count, valid_signatures, proven_root, amount_in_tree)
            is None && expired_error(m, creator, channel, hash) is None),
{
}

/// What was withdrawn from a channel before its expiry stays within its
/// deposit: a withdrawal with that channel keeps it there, and calls on any
/// other channel hash leave it alone.
pub proof fn lemma_withdrawn_within_deposit(
    m: Ledger,
    channel: Channel,
    hash: Seq<u8>,
    origin: Origin,
    state_root: Seq<u8>,
    signature_count: nat,
    valid_signatures: nat,
    proven_root: Seq<u8>,
    amount_in_tree: u128,
    other: Channel,
    other_hash: Seq<u8>,
)
    requires
        amount_at(m.withdrawn, hash) <= channel.deposit,
        other_hash != hash,
    ensures
        amount_at(
            withdraw_next(m, origin, channel, hash, state_root, signature_count, valid_signatures, proven_root, amount_in_tree).withdrawn,
            hash,
        ) <= channel.deposit,
        amount_at(
            withdraw_next(m, origin, other, other_hash, state_root, signature_count, valid_signatures, proven_root, amount_in_tree).withdrawn,
            hash,
        ) == amount_at(m.withdrawn, hash),
        amount_at(open_next(m, origin, other, other_hash).withdrawn, hash) == amount_at(m.withdrawn, hash),
        amount_at(expired_next(m, origin, other, other_hash).withdrawn, hash) == amount_at(m.withdrawn, hash),
        amount_at(open_next(m, origin, channel, hash).withdrawn, hash) == amount_at(m.withdrawn, hash),
        amount_at(expired_next(m, origin, channel, hash).withdrawn, hash) == amount_at(m.withdrawn, hash),
{
}

/// An expired channel pays nothing more: every withdrawal from it, and
/// every further attempt to close it, is refused with storage unchanged.
pub proof fn lemma_expired_channel_closed(
    m: Ledger,
    origin: Origin,
    channel: Channel,
    hash: Seq<u8>,
    state_root: Seq<u8>,
    signature_count: nat,
    valid_signatures: nat,
    proven_root: Seq<u8>,
    amount_in_tree: u128,
)
    requires
        m.state.contains_key(hash),
        m.state[hash] == ChannelState::Expired,
    ensures
        withdraw_error(m, origin, channel, hash, state_root, signature_count, valid_signatures, proven_root, amount_in_tree)
            is Some,
        withdraw_next(m, origin, channel, hash, state_root, signature_count, valid_signatures, proven_root, amount_in_tree)
            == m,
        expired_error(m, origin, channel, hash) is Some,
        expired_next(m, origin, channel, hash) == m,
{
}

/// When a withdrawal is accepted, in terms of its inputs alone: the channel
/// is active and not past `valid_until`; there is a signature per validator
/// and three times the accepted ones reach twice the number of validators;
/// the proof leads to the signed root; the tree credits the sender more than
/// the sender withdrew from this channel (kept under the channel hash
/// followed by the account); the channel's withdrawn total, raised by the
/// difference, stays within the deposit (reaching it exactly is allowed);
/// and the sender's balance stays within `u128`.
pub proof fn lemma_withdraw_accepted_exactly_when(
    m: Ledger,
    sender: [u8; 32],
    channel: Channel,
    hash: Seq<u8>,
    state_root: Seq<u8>,
    signature_count: nat,
    valid_signatures: nat,
    proven_root: Seq<u8>,
    amount_in_tree: u128,
)
    ensures
        ({
            let so_far = amount_at(m.withdrawn_per_user, hash + sender@);
            let n = channel.validators@.len();
            withdraw_error(
                m,
                Origin::Signed(sender),
                channel,
                hash,
                state_root,
                signature_count,
                valid_signatures,
                proven_root,
                amount_in_tree,
            ) is None <==> {
                &&& m.state.contains_key(hash)
                &&& m.state[hash] == ChannelState::Active
                &&& m.now <= channel.valid_until
                &&& signature_count == n
                &&& 3 * valid_signatures >= 2 * n
                &&& state_root == proven_root
                &&& amount_in_tree > so_far
                &&& amount_at(m.withdrawn, hash) + amount_in_tree - so_far <= channel.deposit
                &&& amount_at(m.free, sender@) + amount_in_tree - so_far <= u128::MAX
            }
        }),
{
}

/// Which refusal a withdrawal that passes the channel checks meets first,
/// in terms of its inputs: too few accepted signatures (three times them
/// below twice the validators) is `NoSupermajority`; with enough of them and
/// the proof leading to the root, a total beyond the deposit is
/// `DepositExceeded`.
pub proof fn lemma_withdraw_refusals(
    m: Ledger,
    sender: [u8; 32],
    channel: Channel,
    hash: Seq<u8>,
    state_root: Seq<u8>,
    valid_signatures: nat,
    proven_root: Seq<u8>,
    amount_in_tree: u128,
)
    requires
        m.state.contains_key(hash),
        m.state[hash] == ChannelState::Active,
        m.now <= channel.valid_until,
    ensures
        ({
            let n = channel.validators@.len();
            let so_far = amount_at(m.withdrawn_per_user, hash + sender@);
            let e = withdraw_error(
                m,
                Origin::Signed(sender),
                channel,
                hash,
                state_root,
                n,
                valid_signatures,
                proven_root,
                amount_in_tree,
            );
            &&& (e == Some(Error::NoSupermajority) <==> 3 * valid_signatures < 2 * n)
            &&& (3 * valid_signatures >= 2 * n && state_root == proven_root && amount_in_tree > so_far)
                ==> (e == Some(Error::DepositExceeded) <==> amount_at(m.withdrawn, hash) + amount_in_tree
                - so_far > channel.deposit)
        }),
{
}

/// Withdrawals are kept per channel and per account: the key of one channel
/// and account is never the key of another channel or another account, so
/// a withdrawal from one channel leaves what every account withdrew from
/// every other channel as it was (channel hashes all have one length).
pub proof fn lemma_withdrawals_kept_per_channel(
    m: Ledger,
    origin: Origin,
    channel: Channel,
    hash: Seq<u8>,
    state_root: Seq<u8>,
    signature_count: nat,
    valid_signatures: nat,
    proven_root: Seq<u8>,
    amount_in_tree: u128,
    other_hash: Seq<u8>,
    who: Seq<u8>,
)
    requires
        other_hash != hash,
        other_hash.len() == hash.len(),
    ensures
        user_key(hash, who) != user_key(other_hash, who),
        forall|w: Seq<u8>| w != who ==> user_key(hash, w) != user_key(hash, who),
        withdrawn_so_far(
            withdraw_next(m, origin, channel, hash, state_root, signature_count, valid_signatures, proven_root, amount_in_tree),
            other_hash,
            who,
        ) == withdrawn_so_far(m, other_hash, who),
{
    lemma_key_separates(hash, other_hash, who);
    assert forall|w: Seq<u8>| w != who implies user_key(hash, w) != user_key(hash, who) by {
        if user_key(hash, w) == user_key(hash, who) {
            assert((hash + w).subrange(hash.len() as int, (hash + w).len() as int) =~= w);
            assert((hash + who).subrange(hash.len() as int, (hash + who).len() as int) =~= who);
        }
    }
    if let Some(sender) = signer(origin) {
        lemma_key_separates(hash, other_hash, sender);
        lemma_key_separates_accounts(hash, other_hash, sender, who);
    }
}

/// The key of a channel and an account determines the channel hash.
proof fn lemma_key_separates(hash: Seq<u8>, other_hash: Seq<u8>, who: Seq<u8>)
    requires
        other_hash != hash,
    ensures
        user_key(hash, who) != user_key(other_hash, who),
{
    if user_key(hash, who) == user_key(other_hash, who) {
        assert((hash + who).len() == hash.len() + who.len());
        assert((other_hash + who).len() == other_hash.len() + who.len());
        assert(hash.len() == other_hash.len());
        assert((hash + who).subrange(0, hash.len() as int) =~= hash);
        assert((other_hash + who).subrange(0, other_hash.len() as int) =~= other_hash);
    }
}

/// Keys of two channel hashes of one length differ whatever the accounts.
proof fn lemma_key_separates_accounts(hash: Seq<u8>, other_hash: Seq<u8>, sender: Seq<u8>, who: Seq<u8>)
    requires
        other_hash != hash,
        hash.len() == other_hash.len(),
    ensures
        user_key(hash, sender) != user_key(other_hash, who),
{
    if user_key(hash, sender) == user_key(other_hash, who) {
        assert((hash + sender).subrange(0, hash.len() as int) =~= hash);
        assert((other_hash + who).subrange(0, other_hash.len() as int) =~= other_hash);
    }
}

/// The validators sign the hash of the channel hash followed by the state
/// root, in that order.
pub proof fn lemma_signed_message_order(hash: Seq<u8>, state_root: Seq<u8>)
    ensures
        signed_message(hash, state_root) == blake2_256(hash + state_root),
{
}

} // verus!
