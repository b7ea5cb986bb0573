use adex_outpace::bytes::{bytes_eq, bytes_lt};
use adex_outpace::channel::Channel;
use adex_outpace::crypto::hash_pair;
use adex_outpace::merkle::{balance_leaf_of, combine_sorted, count_valid_signatures, fold_path, is_supermajority};
use ed25519_dalek::{Keypair, PublicKey, SecretKey, Signer};

fn keypair(seed: u8) -> Keypair {
    let secret = SecretKey::from_bytes(&[seed; 32]).unwrap();
    let public: PublicKey = (&secret).into();
    Keypair { secret, public }
}

fn blake2(data: &[u8]) -> [u8; 32] {
    let mut out = [0u8; 32];
    out.copy_from_slice(blake2_rfc::blake2b::blake2b(32, &[], data).as_bytes());
    out
}

fn sample_channel() -> Channel {
    Channel {
        creator: [1u8; 32],
        deposit: 1000,
        valid_until: 5,
        validators: vec![[2u8; 32], [3u8; 32]],
        spec: b"ab".to_vec(),
    }
}

#[test]
fn channel_validity_bounds() {
    let mut c = sample_channel();
    c.validators = vec![[2u8; 32]];
    assert!(!c.is_valid());
    c.validators = vec![[2u8; 32]; 2];
    assert!(c.is_valid());
    c.validators = vec![[2u8; 32]; 256];
    assert!(c.is_valid());
    c.validators = vec![[2u8; 32]; 257];
    assert!(!c.is_valid());
    c.validators = vec![];
    assert!(!c.is_valid());
}

#[test]
fn channel_encoding_is_its_fields_in_order() {
    let c = sample_channel();
    let mut expected = vec![1u8; 32];
    expected.extend_from_slice(&1000u128.to_le_bytes());
    expected.extend_from_slice(&5u64.to_le_bytes());
    expected.push(8);
    expected.extend_from_slice(&[2u8; 32]);
    expected.extend_from_slice(&[3u8; 32]);
    expected.push(8);
    expected.extend_from_slice(b"ab");
    assert_eq!(c.encode(), expected);
}

#[test]
fn channel_encoding_uses_two_byte_lengths_from_64() {
    let mut c = sample_channel();
    c.spec = vec![7u8; 64];
    let bytes = c.encode();
    // 32 + 16 + 8 + 1 + 64 bytes come before the spec's length.
    assert_eq!(&bytes[121..123], &[0x01, 0x01]);
    assert_eq!(bytes.len(), 123 + 64);
    c.spec = vec![7u8; 63];
    let bytes = c.encode();
    assert_eq!(bytes[121], 63 * 4);
}

#[test]
fn channel_hash_is_blake2_of_encoding() {
    let c = sample_channel();
    let h = c.hash_of();
    assert_eq!(h, blake2(&c.encode()));
    assert_ne!(&h[..], &c.encode()[..32]);
    let mut d = sample_channel();
    d.deposit = 1001;
    assert_ne!(d.hash_of(), h);
}

#[test]
fn blake2_of_empty_input() {
    // hash_pair of two words hashes their 64 bytes.
    let h = hash_pair(&[0u8; 32], &[0u8; 32]);
    assert_eq!(h, blake2(&[0u8; 64]));
    assert_ne!(h, [0u8; 32]);
}

#[test]
fn balance_leaf_hashes_account_and_amount() {
    let leaf = balance_leaf_of(&[9u8; 32], 300);
    let mut bytes = vec![9u8; 32];
    bytes.extend_from_slice(&300u128.to_le_bytes());
    assert_eq!(leaf, blake2(&bytes));
}

#[test]
fn combine_sorted_orders_lexicographically() {
    let mut a = [0u8; 32];
    let mut b = [0u8; 32];
    a[0] = 1;
    b[0] = 1;
    b[31] = 1;
    assert_eq!(combine_sorted(a.to_vec(), b.to_vec()), (a.to_vec(), b.to_vec()));
    assert_eq!(combine_sorted(b.to_vec(), a.to_vec()), (a.to_vec(), b.to_vec()));
    assert_eq!(combine_sorted(a.to_vec(), a.to_vec()), (a.to_vec(), a.to_vec()));
    assert!(bytes_lt(&a, &b));
    assert!(!bytes_lt(&b, &a));
    assert!(!bytes_lt(&a, &a));
}

#[test]
fn combine_sorted_short_strings() {
    assert_eq!(combine_sorted(vec![2u8], vec![1u8]), (vec![1u8], vec![2u8]));
    assert_eq!(combine_sorted(vec![1u8], vec![2u8]), (vec![1u8], vec![2u8]));
    assert_eq!(combine_sorted(vec![2u8], vec![1u8, 255u8]), (vec![1u8, 255u8], vec![2u8]));
    assert_eq!(combine_sorted(vec![1u8, 255u8], vec![2u8]), (vec![1u8, 255u8], vec![2u8]));
    assert_eq!(combine_sorted(vec![1u8], vec![1u8, 0u8]), (vec![1u8], vec![1u8, 0u8]));
    assert_eq!(combine_sorted(vec![1u8, 0u8], vec![1u8]), (vec![1u8], vec![1u8, 0u8]));
    assert_eq!(combine_sorted(vec![], vec![0u8]), (vec![], vec![0u8]));
    let (x, y) = combine_sorted(vec![9u8, 1], vec![3u8]);
    assert_eq!(combine_sorted(x.clone(), y.clone()), (x, y));
}

#[test]
fn bytes_lt_any_lengths() {
    assert!(bytes_lt(&[1u8, 255], &[2u8]));
    assert!(!bytes_lt(&[2u8], &[1u8, 255]));
    assert!(bytes_lt(&[1u8], &[1u8, 0]));
    assert!(!bytes_lt(&[1u8, 0], &[1u8]));
    assert!(bytes_lt(&[], &[0u8]));
    assert!(!bytes_lt(&[], &[]));
}

#[test]
fn bytes_eq_compares_contents() {
    assert!(bytes_eq(b"abc", b"abc"));
    assert!(!bytes_eq(b"abc", b"abd"));
    assert!(!bytes_eq(b"abc", b"ab"));
    assert!(bytes_eq(b"", b""));
}

#[test]
fn merkle_step_does_not_depend_on_order() {
    let a = [5u8; 32];
    let b = [6u8; 32];
    assert_eq!(fold_path(&a, &[b]), fold_path(&b, &[a]));
    assert_eq!(fold_path(&a, &[b]), hash_pair(&a, &b));
    assert_eq!(fold_path(&b, &[a]), hash_pair(&a, &b));
}

#[test]
fn merkle_fold_over_two_levels() {
    let leaf = [1u8; 32];
    let s1 = [9u8; 32];
    let s2 = [0u8; 32];
    let level1 = hash_pair(&leaf, &s1);
    let (x, y) = combine_sorted(level1.to_vec(), s2.to_vec());
    let mut bytes = x;
    bytes.extend_from_slice(&y);
    assert_eq!(fold_path(&leaf, &[s1, s2]), blake2(&bytes));
    assert_eq!(fold_path(&leaf, &[]), leaf);
}

#[test]
fn signatures_counted_per_validator() {
    let msg = [4u8; 32];
    let k1 = keypair(1);
    let k2 = keypair(2);
    let k3 = keypair(3);
    let keys = [k1.public.to_bytes(), k2.public.to_bytes(), k3.public.to_bytes()];
    let s1 = k1.sign(&msg).to_bytes();
    let s2 = k2.sign(&msg).to_bytes();
    let s3 = k3.sign(&msg).to_bytes();
    assert_eq!(count_valid_signatures(&[s1, s2, s3], &keys, &msg), 3);
    assert_eq!(count_valid_signatures(&[s1, s2, [0u8; 64]], &keys, &msg), 2);
    // A signature checked against another validator's key does not count.
    assert_eq!(count_valid_signatures(&[s2, s1, s3], &keys, &msg), 1);
    assert_eq!(count_valid_signatures(&[s1, s2, s3], &keys, &[5u8; 32]), 0);
}

#[test]
fn supermajority_is_two_thirds() {
    assert!(is_supermajority(2, 3));
    assert!(!is_supermajority(1, 3));
    assert!(is_supermajority(3, 3));
    assert!(!is_supermajority(2, 4));
    assert!(is_supermajority(3, 4));
    assert!(is_supermajority(0, 0));
}
