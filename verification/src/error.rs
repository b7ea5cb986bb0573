//! Why a call into the runtime modules was refused.

use vstd::prelude::*;

verus! {

/// The reasons a dispatchable call is refused.
#[derive(PartialEq, Eq, Structural, Clone, Copy, Debug)]
pub enum Error {
    /// The call was not made by a signed account.
    BadOrigin,
    /// The sender is not the channel's creator.
    SenderNotCreator,
    /// The channel has fewer than 2 or more than 256 validators.
    InvalidChannel,
    /// A channel with the same hash was opened before.
    ChannelExists,
    /// The account's free balance is below the amount to take from it.
    InsufficientFunds,
    /// The channel is not open (never opened, or already expired).
    ChannelNotActive,
    /// The channel's validity period has not ended yet.
    ChannelNotExpired,
    /// The channel's validity period has ended.
    ChannelExpired,
    /// There are not as many signatures as validators.
    SignatureCountMismatch,
    /// Fewer than two thirds of the validators signed the state root.
    NoSupermajority,
    /// The balance leaf is not under the signed state root.
    BalanceLeafNotFound,
    /// The amount in the tree is not above what the sender withdrew before.
    NothingToWithdraw,
    /// The withdrawal would take more from the channel than its deposit.
    DepositExceeded,
    /// The game's payment was never set.
    PaymentNotInitialised,
    /// A balance would leave the range of `u128`; nothing was changed.
    Overflow,
}

impl Error {
    /// The text of the message for this refusal.
    pub open spec fn message_text(self) -> Seq<char> {
        match self {
            Error::BadOrigin => "bad origin: expected to be a signed origin"@,
            Error::SenderNotCreator => "the sender must be channel.creator"@,
            Error::InvalidChannel => "the channel must be valid"@,
            Error::ChannelExists => "channel must not already exist"@,
            Error::InsufficientFunds => "account has too few funds"@,
            Error::ChannelNotActive => "channel must be active"@,
            Error::ChannelNotExpired => "channel must be expired"@,
            Error::ChannelExpired => "channel must not be expired"@,
            Error::SignatureCountMismatch => "signatures must be as many as validators"@,
            Error::NoSupermajority => "state must be signed by a validator supermajority"@,
            Error::BalanceLeafNotFound => "balance leaf not found"@,
            Error::NothingToWithdraw => "amount_in_tree should be larger than withdrawn_so_far"@,
            Error::DepositExceeded => "total withdrawn must not exceed channel deposit"@,
            Error::PaymentNotInitialised => "Must have payment initialised"@,
            Error::Overflow => "balance overflow"@,
        }
    }

    /// The message the runtime reports for this refusal.
    pub fn message(&self) -> (text: &'static str)
        ensures
            text@ == self.message_text(),
    {
        match self {
            Error::BadOrigin => "bad origin: expected to be a signed origin",
            Error::SenderNotCreator => "the sender must be channel.creator",
            Error::InvalidChannel => "the channel must be valid",
            Error::ChannelExists => "channel must not already exist",
            Error::InsufficientFunds => "account has too few funds",
            Error::ChannelNotActive => "channel must be active",
            Error::ChannelNotExpired => "channel must be expired",
            Error::ChannelExpired => "channel must not be expired",
            Error::SignatureCountMismatch => "signatures must be as many as validators",
            Error::NoSupermajority => "state must be signed by a validator supermajority",
            Error::BalanceLeafNotFound => "balance leaf not found",
            Error::NothingToWithdraw => "amount_in_tree should be larger than withdrawn_so_far",
            Error::DepositExceeded => "total withdrawn must not exceed channel deposit",
            Error::PaymentNotInitialised => "Must have payment initialised",
            Error::Overflow => "balance overflow",
        }
    }
}

} // verus!
