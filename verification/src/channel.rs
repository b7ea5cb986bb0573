//! A payment channel: who opened it, what it locks, until when, and which
//! validators sign off on its balance tree.

use vstd::prelude::*;
use crate::codec::{compact_len, encode_bytes, encode_u128, encode_u64, encode_word, encode_words, le_bytes, word_views};
use crate::crypto::{blake2_256, hash_bytes};

verus! {

/// A channel as it is submitted to the runtime.
#[derive(Clone, Debug)]
pub struct Channel {
    /// The account that opens the channel and locks the deposit.
    pub creator: [u8; 32],
    /// The amount locked in the channel.
    pub deposit: u128,
    /// The last moment at which earnings can be withdrawn.
    pub valid_until: u64,
    /// The public keys of the validators that sign the balance tree.
    pub validators: Vec<[u8; 32]>,
    /// An opaque campaign specification.
    pub spec: Vec<u8>,
}

/// The life of a channel: open until withdrawn after its expiry.
#[derive(PartialEq, Eq, Structural, Clone, Copy, Debug)]
pub enum ChannelState {
    Active,
    Expired,
}

impl Channel {
    /// A channel is valid when it has between 2 and 256 validators.
    pub open spec fn valid(&self) -> bool {
        2 <= self.validators@.len() <= 256
    }

    /// Whether the channel has between 2 and 256 validators.
    pub fn is_valid(&self) -> (valid: bool)
        ensures
            valid == self.valid(),
    {
        self.validators.len() >= 2 && self.validators.len() <= 256
    }

    /// The codec can encode the channel: its collections have lengths that fit a `u32`.
    pub open spec fn encodable(&self) -> bool {
        &&& self.validators@.len() <= u32::MAX
        &&& self.spec@.len() <= u32::MAX
    }

    /// The SCALE encoding of the channel: its fields' encodings, in order.
    pub open spec fn encoding(&self) -> Seq<u8> {
        self.creator@ + le_bytes(self.deposit as nat, 16) + le_bytes(self.valid_until as nat, 8)
            + compact_len(self.validators@.len()) + word_views(self.validators@).flatten()
            + compact_len(self.spec@.len()) + self.spec@
    }

    /// The hash that identifies the channel in storage.
    pub open spec fn hash(&self) -> Seq<u8> {
        blake2_256(self.encoding())
    }

    /// Encodes the channel.
    pub fn encode(&self) -> (bytes: Vec<u8>)
        requires
            self.encodable(),
        ensures
            bytes@ == self.encoding(),
    {
        let mut out = encode_word(&self.creator);
        let mut deposit = encode_u128(self.deposit);
        out.append(&mut deposit);
        let mut valid_until = encode_u64(self.valid_until);
        out.append(&mut valid_until);
        let mut validators = encode_words(self.validators.as_slice());
        out.append(&mut validators);
        let mut spec = encode_bytes(self.spec.as_slice());
        out.append(&mut spec);
        out
    }

    /// The Blake2-256 hash of the channel's encoding.
    pub fn hash_of(&self) -> (digest: [u8; 32])
        requires
            self.encodable(),
        ensures
            digest@ == self.hash(),
    {
        let bytes = self.encode();
        hash_bytes(bytes.as_slice())
    }
}

} // verus!
