//! The two cryptographic primitives the channels rest on: the 256-bit
//! Blake2b hash of the runtime, and ed25519 signature verification.

use vstd::prelude::*;
use crate::codec::encode_word;

verus! {

/// What `blake2_rfc::blake2b::blake2b(32, &[], data)` returns for `data`.
pub uninterp spec fn blake2_256(data: Seq<u8>) -> Seq<u8>;

/// Whether the ed25519 public key `key` accepts `sig` as a signature of `msg`.
pub uninterp spec fn ed25519_accepts(sig: Seq<u8>, msg: Seq<u8>, key: Seq<u8>) -> bool;

/// Calls `blake2_rfc::blake2b::blake2b` with a 32-byte output and no key.
/// Claimed: the 32 bytes returned are `blake2_256` of the input; nothing else
/// is said of the digest.
#[verifier::external_body]
pub(crate) fn hash_bytes(data: &[u8]) -> (digest: [u8; 32])
    ensures
        digest@ == blake2_256(data@),
{
    let result = blake2_rfc::blake2b::blake2b(32, &[], data);
    let mut digest = [0u8; 32];
    digest.copy_from_slice(result.as_bytes());
    digest
}

/// Parses `key` with `ed25519_dalek::PublicKey::from_bytes` and `sig` with
/// `ed25519_dalek::Signature::from_bytes`, then calls `Verifier::verify`.
/// Claimed: the answer is `ed25519_accepts` of the three byte strings, and
/// depends on nothing else; a key or signature that does not parse is refused.
#[verifier::external_body]
pub(crate) fn ed25519_verify(sig: &[u8; 64], msg: &[u8], key: &[u8; 32]) -> (ok: bool)
    ensures
        ok == ed25519_accepts(sig@, msg@, key@),
{
    match (ed25519_dalek::PublicKey::from_bytes(key), ed25519_dalek::Signature::from_bytes(sig)) {
        (Ok(public), Ok(signature)) => ed25519_dalek::Verifier::verify(&public, msg, &signature).is_ok(),
        _ => false,
    }
}

/// The hash of the pair `(a, b)` of words: Blake2-256 of its encoding, the
/// two words one after the other.
pub open spec fn pair_hash(a: Seq<u8>, b: Seq<u8>) -> Seq<u8> {
    blake2_256(a + b)
}

/// Hashes the pair `(a, b)` of words, `a` first.
pub fn hash_pair(a: &[u8; 32], b: &[u8; 32]) -> (digest: [u8; 32])
    ensures
        digest@ == pair_hash(a@, b@),
        digest@ == blake2_256(a@ + b@),
{
    let mut bytes = encode_word(a);
    let mut second = encode_word(b);
    bytes.append(&mut second);
    hash_bytes(bytes.as_slice())
}

/// A pair is hashed in the order it is given: the first word's bytes come
/// first in what is hashed, whatever the two words are.
pub proof fn lemma_pair_hash_in_order(a: Seq<u8>, b: Seq<u8>)
    ensures
        pair_hash(a, b) == blake2_256(a + b),
        (a + b).subrange(0, a.len() as int) == a,
        (a + b).subrange(a.len() as int, (a.len() + b.len()) as int) == b,
{
    assert((a + b).subrange(0, a.len() as int) =~= a);
    assert((a + b).subrange(a.len() as int, (a.len() + b.len()) as int) =~= b);
}

} // verus!
