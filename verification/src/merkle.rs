//! The checks behind a withdrawal: the validators' signatures on a state
//! root, and the inclusion of a balance leaf under that root.

use vstd::prelude::*;
use crate::bytes::{bytes_lt, lemma_lex_lt_total, lex_lt};
use crate::codec::{encode_u128, encode_word, le_bytes, word_views};
use crate::crypto::{blake2_256, ed25519_accepts, ed25519_verify, hash_bytes, pair_hash};

verus! {

/// The two words in lexicographic order (the second first when they are equal).
pub open spec fn sorted_pair(a: Seq<u8>, b: Seq<u8>) -> (Seq<u8>, Seq<u8>) {
    if lex_lt(a, b) {
        (a, b)
    } else {
        (b, a)
    }
}

/// The parent of two nodes of the balance tree: the hash of the pair in sorted order.
pub open spec fn node_hash(a: Seq<u8>, b: Seq<u8>) -> Seq<u8> {
    pair_hash(sorted_pair(a, b).0, sorted_pair(a, b).1)
}

/// The root reached from `leaf` by hashing in the siblings of `path`, nearest first.
pub open spec fn merkle_root(leaf: Seq<u8>, path: Seq<Seq<u8>>) -> Seq<u8>
    decreases path.len(),
{
    if path.len() == 0 {
        leaf
    } else {
        node_hash(merkle_root(leaf, path.drop_last()), path.last())
    }
}

/// The leaf of the balance tree that credits `amount` to `account`: the hash
/// of the pair `(account, amount)`.
pub open spec fn balance_leaf(account: Seq<u8>, amount: u128) -> Seq<u8> {
    blake2_256(account + le_bytes(amount as nat, 16))
}

/// The byte views of a sequence of signatures.
pub open spec fn signature_views(sigs: Seq<[u8; 64]>) -> Seq<Seq<u8>> {
    sigs.map_values(|s: [u8; 64]| s@)
}

/// How many of the first `n` signatures are accepted by the key at the same position.
pub open spec fn accepted_count(sigs: Seq<Seq<u8>>, keys: Seq<Seq<u8>>, msg: Seq<u8>, n: nat) -> nat
    decreases n,
{
    if n == 0 {
        0
    } else {
        accepted_count(sigs, keys, msg, (n - 1) as nat) + if ed25519_accepts(
            sigs[n - 1],
            msg,
            keys[n - 1],
        ) {
            1nat
        } else {
            0nat
        }
    }
}

/// At least two thirds of `total` signed.
pub open spec fn supermajority(valid: nat, total: nat) -> bool {
    valid * 3 >= total * 2
}

/// Orders two byte strings, the lexicographically smaller first (the
/// second first when they are equal).
pub fn combine_sorted(a: Vec<u8>, b: Vec<u8>) -> (pair: (Vec<u8>, Vec<u8>))
    ensures
        (pair.0@, pair.1@) == sorted_pair(a@, b@),
{
    if bytes_lt(a.as_slice(), b.as_slice()) {
        (a, b)
    } else {
        (b, a)
    }
}

/// The balance leaf of `account` holding `amount`.
pub fn balance_leaf_of(account: &[u8; 32], amount: u128) -> (leaf: [u8; 32])
    ensures
        leaf@ == balance_leaf(account@, amount),
{
    let mut bytes = encode_word(account);
    let mut value = encode_u128(amount);
    bytes.append(&mut value);
    hash_bytes(bytes.as_slice())
}

/// Folds the siblings of `path` into `leaf`, giving the root they lead to.
pub fn fold_path(leaf: &[u8; 32], path: &[[u8; 32]]) -> (root: [u8; 32])
    ensures
        root@ == merkle_root(leaf@, word_views(path@)),
{
    let mut acc = *leaf;
    let n = path.len();
    let mut i: usize = 0;
    assert(word_views(path@).take(0) =~= Seq::<Seq<u8>>::empty());
    while i < n
        invariant
            n == path@.len(),
            i <= n,
            acc@ == merkle_root(leaf@, word_views(path@).take(i as int)),
        decreases n - i,
    {
        let (first, second) = combine_sorted(encode_word(&acc), encode_word(&path[i]));
        let mut bytes = first;
        let mut rest = second;
        bytes.append(&mut rest);
        acc = hash_bytes(bytes.as_slice());
        assert(word_views(path@).take(i + 1).drop_last() =~= word_views(path@).take(i as int));
        i = i + 1;
    }
    assert(word_views(path@).take(n as int) =~= word_views(path@));
    acc
}

/// Counts the signatures of `msg` that the validator at the same position accepts.
pub fn count_valid_signatures(sigs: &[[u8; 64]], keys: &[[u8; 32]], msg: &[u8]) -> (count: usize)
    requires
        sigs@.len() == keys@.len(),
    ensures
        count == accepted_count(signature_views(sigs@), word_views(keys@), msg@, sigs@.len()),
{
    let n = sigs.len();
    let mut count: usize = 0;
    let mut i: usize = 0;
    while i < n
        invariant
            n == sigs@.len(),
            n == keys@.len(),
            i <= n,
            count <= i,
            count == accepted_count(signature_views(sigs@), word_views(keys@), msg@, i as nat),
        decreases n - i,
    {
        if ed25519_verify(&sigs[i], msg, &keys[i]) {
            count = count + 1;
        }
        i = i + 1;
    }
    count
}

/// Whether `valid` of `total` signatures make at least two thirds.
pub fn is_supermajority(valid: usize, total: usize) -> (enough: bool)
    ensures
        enough == supermajority(valid as nat, total as nat),
        enough == (valid * 3 >= total * 2),
{
    (valid as u128) * 3 >= (total as u128) * 2
}

/// Sorting a pair does not depend on the order the two strings come in,
/// and sorting a sorted pair again leaves it as it is.
pub proof fn lemma_sorted_pair_symmetric_idempotent(a: Seq<u8>, b: Seq<u8>)
    ensures
        sorted_pair(a, b) == sorted_pair(b, a),
        sorted_pair(sorted_pair(a, b).0, sorted_pair(a, b).1) == sorted_pair(a, b),
{
    lemma_lex_lt_total(a, b);
}

/// The parent of two nodes does not depend on which one is the left child:
/// `combine_sorted` puts them in the same order either way.
pub proof fn lemma_node_hash_symmetric(a: Seq<u8>, b: Seq<u8>)
    ensures
        node_hash(a, b) == node_hash(b, a),
{
    lemma_sorted_pair_symmetric_idempotent(a, b);
}

/// Two thirds is the threshold: a count of signatures is enough exactly when
/// three times it reaches twice the number of validators, so adding a
/// signature never makes an enough count too few, and for every number of
/// validators the smallest enough count is the ceiling of two thirds of it.
pub proof fn lemma_supermajority_threshold(valid: nat, total: nat)
    ensures
        supermajority(valid, total) <==> 3 * valid >= 2 * total,
        supermajority(valid, total) ==> supermajority(valid + 1, total),
        supermajority(valid, total) ==> valid >= (2 * total + 2) / 3,
        valid >= (2 * total + 2) / 3 ==> supermajority(valid, total),
        supermajority(total, total),
        total > 0 ==> !supermajority(0, total),
{
}

} // verus!
