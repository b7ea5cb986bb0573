use adex_outpace::channel::{Channel, ChannelState};
use adex_outpace::crypto::hash_pair;
use adex_outpace::error::Error;
use adex_outpace::merkle::{balance_leaf_of, fold_path};
use adex_outpace::outpace::{Event, Origin, Outpace};
use ed25519_dalek::{Keypair, PublicKey, SecretKey, Signer};

const CREATOR: [u8; 32] = [1u8; 32];
const EARNER_A: [u8; 32] = [10u8; 32];
const EARNER_B: [u8; 32] = [11u8; 32];

fn keypair(seed: u8) -> Keypair {
    let secret = SecretKey::from_bytes(&[seed; 32]).unwrap();
    let public: PublicKey = (&secret).into();
    Keypair { secret, public }
}

struct Fixture {
    ledger: Outpace,
    channel: Channel,
    keys: Vec<Keypair>,
}

fn fixture() -> Fixture {
    let keys = vec![keypair(21), keypair(22), keypair(23)];
    let channel = Channel {
        creator: CREATOR,
        deposit: 1000,
        valid_until: 100,
        validators: keys.iter().map(|k| k.public.to_bytes()).collect(),
        spec: b"campaign".to_vec(),
    };
    let mut ledger = Outpace::new(50);
    ledger.set_free_balance(&CREATOR, 5000);
    Fixture { ledger, channel, keys }
}

/// The balance tree crediting 300 to A and 200 to B.
fn tree() -> ([u8; 32], [u8; 32], [u8; 32]) {
    let leaf_a = balance_leaf_of(&EARNER_A, 300);
    let leaf_b = balance_leaf_of(&EARNER_B, 200);
    let root = fold_path(&leaf_a, &[leaf_b]);
    (leaf_a, leaf_b, root)
}

fn sign(f: &Fixture, root: &[u8; 32], signers: &[bool]) -> Vec<[u8; 64]> {
    let msg = hash_pair(&f.channel.hash_of(), root);
    f.keys
        .iter()
        .zip(signers.iter())
        .map(|(k, &s)| if s { k.sign(&msg).to_bytes() } else { [0u8; 64] })
        .collect()
}

fn opened() -> Fixture {
    let mut f = fixture();
    let r = f.ledger.channel_open(&Origin::Signed(CREATOR), &f.channel);
    assert!(r.is_ok());
    f
}

#[test]
fn open_locks_deposit_and_activates() {
    let mut f = fixture();
    let hash = f.channel.hash_of();
    let r = f.ledger.channel_open(&Origin::Signed(CREATOR), &f.channel);
    match r {
        Ok(Event::ChannelOpen(h)) => assert_eq!(h, hash),
        _ => panic!("channel_open failed"),
    }
    assert_eq!(f.ledger.free_balance(&CREATOR), 4000);
    assert_eq!(f.ledger.state(&hash), Some(ChannelState::Active));
    assert_eq!(f.ledger.withdrawn(&hash), 0);
}

#[test]
fn open_refusals() {
    let mut f = fixture();
    let hash = f.channel.hash_of();
    assert!(matches!(f.ledger.channel_open(&Origin::Root, &f.channel), Err(Error::BadOrigin)));
    assert!(matches!(f.ledger.channel_open(&Origin::Inherent, &f.channel), Err(Error::BadOrigin)));
    assert!(matches!(
        f.ledger.channel_open(&Origin::Signed(EARNER_A), &f.channel),
        Err(Error::SenderNotCreator)
    ));
    let mut lonely = f.channel.clone();
    lonely.validators.truncate(1);
    assert!(matches!(
        f.ledger.channel_open(&Origin::Signed(CREATOR), &lonely),
        Err(Error::InvalidChannel)
    ));
    assert_eq!(f.ledger.state(&hash), None);
    assert_eq!(f.ledger.free_balance(&CREATOR), 5000);
    assert!(f.ledger.channel_open(&Origin::Signed(CREATOR), &f.channel).is_ok());
    assert!(matches!(
        f.ledger.channel_open(&Origin::Signed(CREATOR), &f.channel),
        Err(Error::ChannelExists)
    ));
    assert_eq!(f.ledger.free_balance(&CREATOR), 4000);
}

#[test]
fn open_without_funds_changes_nothing() {
    let mut f = fixture();
    f.ledger.set_free_balance(&CREATOR, 999);
    let hash = f.channel.hash_of();
    assert!(matches!(
        f.ledger.channel_open(&Origin::Signed(CREATOR), &f.channel),
        Err(Error::InsufficientFunds)
    ));
    assert_eq!(f.ledger.free_balance(&CREATOR), 999);
    assert_eq!(f.ledger.state(&hash), None);
    f.ledger.set_now(101);
    assert!(matches!(
        f.ledger.channel_withdraw_expired(&Origin::Signed(CREATOR), &f.channel),
        Err(Error::ChannelNotActive)
    ));
    assert_eq!(f.ledger.free_balance(&CREATOR), 999);
    f.ledger.set_now(50);
    f.ledger.set_free_balance(&CREATOR, 1000);
    assert!(f.ledger.channel_open(&Origin::Signed(CREATOR), &f.channel).is_ok());
    assert_eq!(f.ledger.free_balance(&CREATOR), 0);
    assert_eq!(f.ledger.state(&hash), Some(ChannelState::Active));
}

#[test]
fn expired_withdraw_returns_deposit_once() {
    let mut f = opened();
    let hash = f.channel.hash_of();
    assert!(matches!(
        f.ledger.channel_withdraw_expired(&Origin::Signed(CREATOR), &f.channel),
        Err(Error::ChannelNotExpired)
    ));
    f.ledger.set_now(100);
    assert!(matches!(
        f.ledger.channel_withdraw_expired(&Origin::Signed(CREATOR), &f.channel),
        Err(Error::ChannelNotExpired)
    ));
    f.ledger.set_now(101);
    assert!(matches!(
        f.ledger.channel_withdraw_expired(&Origin::Signed(EARNER_A), &f.channel),
        Err(Error::SenderNotCreator)
    ));
    assert!(matches!(
        f.ledger.channel_withdraw_expired(&Origin::Root, &f.channel),
        Err(Error::BadOrigin)
    ));
    match f.ledger.channel_withdraw_expired(&Origin::Signed(CREATOR), &f.channel) {
        Ok(Event::ChannelWithdrawExpired(h, amount)) => {
            assert_eq!(h, hash);
            assert_eq!(amount, 1000);
        },
        _ => panic!("withdraw_expired failed"),
    }
    assert_eq!(f.ledger.free_balance(&CREATOR), 5000);
    assert_eq!(f.ledger.state(&hash), Some(ChannelState::Expired));
    assert!(matches!(
        f.ledger.channel_withdraw_expired(&Origin::Signed(CREATOR), &f.channel),
        Err(Error::ChannelNotActive)
    ));
    assert!(matches!(
        f.ledger.channel_open(&Origin::Signed(CREATOR), &f.channel),
        Err(Error::ChannelExists)
    ));
}

#[test]
fn expired_withdraw_of_unknown_channel_is_refused() {
    let mut f = fixture();
    f.ledger.set_now(1000);
    assert!(matches!(
        f.ledger.channel_withdraw_expired(&Origin::Signed(CREATOR), &f.channel),
        Err(Error::ChannelNotActive)
    ));
}

#[test]
fn earner_withdraws_once() {
    let mut f = opened();
    let hash = f.channel.hash_of();
    let (_, leaf_b, root) = tree();
    let sigs = sign(&f, &root, &[true, true, false]);
    match f.ledger.channel_withdraw(&Origin::Signed(EARNER_A), &f.channel, &root, &sigs, &vec![leaf_b], 300) {
        Ok(Event::ChannelWithdraw(who, h, amount)) => {
            assert_eq!(who, EARNER_A);
            assert_eq!(h, hash);
            assert_eq!(amount, 300);
        },
        other => panic!("withdraw failed: {:?}", other),
    }
    assert_eq!(f.ledger.free_balance(&EARNER_A), 300);
    assert_eq!(f.ledger.withdrawn(&hash), 300);
    assert_eq!(f.ledger.withdrawn_per_user(&hash, &EARNER_A), 300);
    assert!(matches!(
        f.ledger.channel_withdraw(&Origin::Signed(EARNER_A), &f.channel, &root, &sigs, &vec![leaf_b], 300),
        Err(Error::NothingToWithdraw)
    ));
    assert_eq!(f.ledger.free_balance(&EARNER_A), 300);
}

#[test]
fn later_tree_pays_only_the_difference() {
    let mut f = opened();
    let hash = f.channel.hash_of();
    let (_, leaf_b, root) = tree();
    let sigs = sign(&f, &root, &[true, true, true]);
    assert!(f.ledger.channel_withdraw(&Origin::Signed(EARNER_A), &f.channel, &root, &sigs, &vec![leaf_b], 300).is_ok());
    let leaf_a2 = balance_leaf_of(&EARNER_A, 450);
    let root2 = fold_path(&leaf_a2, &[leaf_b]);
    let sigs2 = sign(&f, &root2, &[true, false, true]);
    match f.ledger.channel_withdraw(&Origin::Signed(EARNER_A), &f.channel, &root2, &sigs2, &vec![leaf_b], 450) {
        Ok(Event::ChannelWithdraw(_, _, amount)) => assert_eq!(amount, 150),
        other => panic!("second withdraw failed: {:?}", other),
    }
    assert_eq!(f.ledger.free_balance(&EARNER_A), 450);
    assert_eq!(f.ledger.withdrawn(&hash), 450);
}

#[test]
fn withdraw_then_expiry_returns_the_rest() {
    let mut f = opened();
    let (leaf_a, leaf_b, root) = tree();
    let sigs = sign(&f, &root, &[true, true, true]);
    assert!(f.ledger.channel_withdraw(&Origin::Signed(EARNER_A), &f.channel, &root, &sigs, &vec![leaf_b], 300).is_ok());
    assert!(f.ledger.channel_withdraw(&Origin::Signed(EARNER_B), &f.channel, &root, &sigs, &vec![leaf_a], 200).is_ok());
    assert_eq!(f.ledger.free_balance(&EARNER_B), 200);
    f.ledger.set_now(101);
    assert!(matches!(
        f.ledger.channel_withdraw(&Origin::Signed(EARNER_B), &f.channel, &root, &sigs, &vec![leaf_a], 200),
        Err(Error::ChannelExpired)
    ));
    match f.ledger.channel_withdraw_expired(&Origin::Signed(CREATOR), &f.channel) {
        Ok(Event::ChannelWithdrawExpired(_, amount)) => assert_eq!(amount, 500),
        other => panic!("withdraw_expired failed: {:?}", other),
    }
    assert_eq!(f.ledger.free_balance(&CREATOR), 4500);
}

#[test]
fn withdraw_refusals() {
    let mut f = fixture();
    let (_, leaf_b, root) = tree();
    let sigs = sign(&f, &root, &[true, true, true]);
    let path = vec![leaf_b];
    assert!(matches!(
        f.ledger.channel_withdraw(&Origin::Root, &f.channel, &root, &sigs, &path, 300),
        Err(Error::BadOrigin)
    ));
    assert!(matches!(
        f.ledger.channel_withdraw(&Origin::Signed(EARNER_A), &f.channel, &root, &sigs, &path, 300),
        Err(Error::ChannelNotActive)
    ));
    assert!(f.ledger.channel_open(&Origin::Signed(CREATOR), &f.channel).is_ok());
    assert!(matches!(
        f.ledger.channel_withdraw(&Origin::Signed(EARNER_A), &f.channel, &root, &sigs[..2].to_vec(), &path, 300),
        Err(Error::SignatureCountMismatch)
    ));
    let weak = sign(&f, &root, &[true, false, false]);
    assert!(matches!(
        f.ledger.channel_withdraw(&Origin::Signed(EARNER_A), &f.channel, &root, &weak, &path, 300),
        Err(Error::NoSupermajority)
    ));
    assert!(matches!(
        f.ledger.channel_withdraw(&Origin::Signed(EARNER_A), &f.channel, &root, &sigs, &path, 301),
        Err(Error::BalanceLeafNotFound)
    ));
    assert!(matches!(
        f.ledger.channel_withdraw(&Origin::Signed(EARNER_B), &f.channel, &root, &sigs, &path, 300),
        Err(Error::BalanceLeafNotFound)
    ));
    f.ledger.set_now(101);
    assert!(matches!(
        f.ledger.channel_withdraw(&Origin::Signed(EARNER_A), &f.channel, &root, &sigs, &path, 300),
        Err(Error::ChannelExpired)
    ));
    assert_eq!(f.ledger.free_balance(&EARNER_A), 0);
}

#[test]
fn withdraw_beyond_deposit_is_refused_but_recorded() {
    let mut f = fixture();
    f.channel.deposit = 250;
    assert!(f.ledger.channel_open(&Origin::Signed(CREATOR), &f.channel).is_ok());
    let hash = f.channel.hash_of();
    let (_, leaf_b, root) = tree();
    let sigs = sign(&f, &root, &[true, true, true]);
    assert!(matches!(
        f.ledger.channel_withdraw(&Origin::Signed(EARNER_A), &f.channel, &root, &sigs, &vec![leaf_b], 300),
        Err(Error::DepositExceeded)
    ));
    assert_eq!(f.ledger.free_balance(&EARNER_A), 0);
    assert_eq!(f.ledger.withdrawn(&hash), 0);
    assert_eq!(f.ledger.withdrawn_per_user(&hash, &EARNER_A), 300);
    assert!(matches!(
        f.ledger.channel_withdraw(&Origin::Signed(EARNER_A), &f.channel, &root, &sigs, &vec![leaf_b], 300),
        Err(Error::NothingToWithdraw)
    ));
}

#[test]
fn withdraw_with_digests_takes_precomputed_checks() {
    let mut f = opened();
    let hash = f.channel.hash_of();
    let root = [3u8; 32];
    assert!(matches!(
        f.ledger.withdraw_with_digests(&Origin::Signed(EARNER_A), &f.channel, &hash, &root, 3, 1, &root, 10),
        Err(Error::NoSupermajority)
    ));
    assert!(matches!(
        f.ledger.withdraw_with_digests(&Origin::Signed(EARNER_A), &f.channel, &hash, &root, 3, 2, &[4u8; 32], 10),
        Err(Error::BalanceLeafNotFound)
    ));
    match f.ledger.withdraw_with_digests(&Origin::Signed(EARNER_A), &f.channel, &hash, &root, 3, 2, &root, 10) {
        Ok(Event::ChannelWithdraw(who, h, amount)) => {
            assert_eq!(who, EARNER_A);
            assert_eq!(h, hash);
            assert_eq!(amount, 10);
        },
        other => panic!("withdraw_with_digests failed: {:?}", other),
    }
    assert_eq!(f.ledger.withdrawn(&hash), 10);
}

#[test]
fn open_and_expire_with_given_hash() {
    let mut f = fixture();
    let hash = [42u8; 32];
    assert!(f.ledger.open_with_hash(&Origin::Signed(CREATOR), &f.channel, &hash).is_ok());
    assert_eq!(f.ledger.state(&hash), Some(ChannelState::Active));
    assert_eq!(f.ledger.state(&f.channel.hash_of()), None);
    f.ledger.set_now(200);
    match f.ledger.withdraw_expired_with_hash(&Origin::Signed(CREATOR), &f.channel, &hash) {
        Ok(Event::ChannelWithdrawExpired(h, amount)) => {
            assert_eq!(h, hash);
            assert_eq!(amount, 1000);
        },
        other => panic!("withdraw_expired_with_hash failed: {:?}", other),
    }
    assert_eq!(f.ledger.state(&hash), Some(ChannelState::Expired));
}

#[test]
fn creator_balance_overflow_changes_nothing() {
    let mut f = opened();
    let hash = f.channel.hash_of();
    f.ledger.set_free_balance(&CREATOR, u128::MAX - 10);
    f.ledger.set_now(101);
    assert!(matches!(
        f.ledger.channel_withdraw_expired(&Origin::Signed(CREATOR), &f.channel),
        Err(Error::Overflow)
    ));
    assert_eq!(f.ledger.state(&hash), Some(ChannelState::Active));
    assert_eq!(f.ledger.free_balance(&CREATOR), u128::MAX - 10);
}

#[test]
fn error_messages() {
    assert_eq!(Error::SenderNotCreator.message(), "the sender must be channel.creator");
    assert_eq!(Error::ChannelExists.message(), "channel must not already exist");
    assert_eq!(Error::NoSupermajority.message(), "state must be signed by a validator supermajority");
    assert_eq!(Error::DepositExceeded.message(), "total withdrawn must not exceed channel deposit");
    assert_eq!(Error::PaymentNotInitialised.message(), "Must have payment initialised");
}
