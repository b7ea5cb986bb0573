//! The SCALE byte encodings that channel hashes are computed over.
//!
//! The encodings of single values come from `parity_codec`; the library only
//! frames them (a struct is encoded as the concatenation of its fields).

use vstd::prelude::*;

verus! {

/// The `n` low bytes of `x`, least significant first.
pub open spec fn le_bytes(x: nat, n: nat) -> Seq<u8>
    decreases n,
{
    if n == 0 {
        Seq::empty()
    } else {
        seq![(x % 256) as u8] + le_bytes(x / 256, (n - 1) as nat)
    }
}

/// The compact encoding of a collection length (at most `u32::MAX`).
pub open spec fn compact_len(n: nat) -> Seq<u8> {
    if n < 64 {
        le_bytes(n * 4, 1)
    } else if n < 16384 {
        le_bytes(n * 4 + 1, 2)
    } else if n < 1073741824 {
        le_bytes(n * 4 + 2, 4)
    } else {
        seq![3u8] + le_bytes(n, 4)
    }
}

/// The byte views of a sequence of 32-byte words.
pub open spec fn word_views(words: Seq<[u8; 32]>) -> Seq<Seq<u8>> {
    words.map_values(|w: [u8; 32]| w@)
}

/// `<u64 as parity_codec::Encode>::encode`: the eight little-endian bytes of `x`.
#[verifier::external_body]
pub(crate) fn encode_u64(x: u64) -> (out: Vec<u8>)
    ensures
        out@ == le_bytes(x as nat, 8),
{
    parity_codec::Encode::encode(&x)
}

/// `<u128 as parity_codec::Encode>::encode`: the sixteen little-endian bytes of `x`.
#[verifier::external_body]
pub(crate) fn encode_u128(x: u128) -> (out: Vec<u8>)
    ensures
        out@ == le_bytes(x as nat, 16),
{
    parity_codec::Encode::encode(&x)
}

/// `<[u8; 32] as parity_codec::Encode>::encode`: the codec writes the 32 bytes
/// as they are, with no length prefix.
#[verifier::external_body]
pub(crate) fn encode_word(w: &[u8; 32]) -> (out: Vec<u8>)
    ensures
        out@ == w@,
{
    parity_codec::Encode::encode(w)
}

/// `<[u8] as parity_codec::Encode>::encode`: the compact encoding of the
/// length, then the bytes. The codec asserts that the length fits in a `u32`.
#[verifier::external_body]
pub(crate) fn encode_bytes(bytes: &[u8]) -> (out: Vec<u8>)
    requires
        bytes@.len() <= u32::MAX,
    ensures
        out@ == compact_len(bytes@.len()) + bytes@,
{
    parity_codec::Encode::encode(bytes)
}

/// `<[[u8; 32]] as parity_codec::Encode>::encode`: the compact encoding of the
/// length, then each word's 32 bytes in order. The codec asserts that the
/// length fits in a `u32`.
#[verifier::external_body]
pub(crate) fn encode_words(words: &[[u8; 32]]) -> (out: Vec<u8>)
    requires
        words@.len() <= u32::MAX,
    ensures
        out@ == compact_len(words@.len()) + word_views(words@).flatten(),
{
    parity_codec::Encode::encode(words)
}

} // verus!
