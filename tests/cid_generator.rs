use std::time::Duration;

use cid_generator::{
    signature_matches, truncated_signature, ConnectionId, ConnectionIdGenerator,
    HashedConnectionIdGenerator, InvalidCid, RandomConnectionIdGenerator, MAX_CID_SIZE,
    NONCE_LEN, SIGNATURE_LEN,
};

#[test]
fn validate_keyed_cid() {
    let mut generator = HashedConnectionIdGenerator::new();
    let cid = generator.generate_cid();
    generator.validate(&cid).unwrap();
}

#[test]
fn random_cids_have_configured_length() {
    for len in 1..=MAX_CID_SIZE {
        let mut generator = RandomConnectionIdGenerator::new(len);
        assert_eq!(generator.cid_len(), len);
        for _ in 0..10 {
            let cid = generator.generate_cid();
            assert_eq!(cid.len(), len);
        }
    }
}

#[test]
fn random_zero_length_cid_is_empty() {
    let mut generator = RandomConnectionIdGenerator::new(0);
    let cid = generator.generate_cid();
    assert!(cid.is_empty());
    assert_eq!(generator.cid_len(), 0);
}

#[test]
fn random_default_is_eight_bytes_without_lifetime() {
    let mut generator = RandomConnectionIdGenerator::default();
    assert_eq!(generator.cid_len(), 8);
    assert_eq!(generator.cid_lifetime(), None);
    assert_eq!(generator.generate_cid().len(), 8);
}

#[test]
fn random_cids_are_filled_with_random_bytes() {
    let mut generator = RandomConnectionIdGenerator::new(MAX_CID_SIZE);
    let a = generator.generate_cid();
    let b = generator.generate_cid();
    assert_ne!(a.as_bytes(), &[0u8; MAX_CID_SIZE][..]);
    assert_ne!(a, b);
}

#[test]
fn random_validate_accepts_everything() {
    let generator = RandomConnectionIdGenerator::new(4);
    let inputs: Vec<Vec<u8>> = vec![vec![], vec![1], vec![0xff; 8], vec![7; MAX_CID_SIZE]];
    for bytes in inputs {
        assert!(generator.validate(&ConnectionId::new(&bytes)).is_ok());
    }
}

#[test]
fn hashed_cids_are_eight_bytes_and_validate() {
    let mut generator = HashedConnectionIdGenerator::from_key(0xdead_beef);
    assert_eq!(generator.cid_len(), 8);
    assert_eq!(NONCE_LEN + SIGNATURE_LEN, 8);
    for _ in 0..100 {
        let cid = generator.generate_cid();
        assert_eq!(cid.len(), 8);
        assert!(generator.validate(&cid).is_ok());
    }
}

#[test]
fn hashed_flipped_signature_bit_is_rejected() {
    let mut generator = HashedConnectionIdGenerator::from_key(42);
    let cid = generator.generate_cid();
    for i in NONCE_LEN..NONCE_LEN + SIGNATURE_LEN {
        for bit in 0..8 {
            let mut bytes = cid.as_bytes().to_vec();
            bytes[i] ^= 1 << bit;
            let flipped = ConnectionId::new(&bytes);
            assert!(matches!(generator.validate(&flipped), Err(InvalidCid)));
        }
    }
}

#[test]
fn hashed_different_keys_reject_each_other() {
    let mut a = HashedConnectionIdGenerator::from_key(1);
    let b = HashedConnectionIdGenerator::from_key(2);
    let cid = a.generate_cid();
    assert!(b.validate(&cid).is_err());
}

#[test]
fn hashed_same_key_accepts_each_other() {
    let mut a = HashedConnectionIdGenerator::from_key(0x0bad_cafe);
    let mut b = HashedConnectionIdGenerator::from_key(0x0bad_cafe);
    for _ in 0..20 {
        let from_a = a.generate_cid();
        let from_b = b.generate_cid();
        assert!(b.validate(&from_a).is_ok());
        assert!(a.validate(&from_b).is_ok());
    }
}

#[test]
fn hashed_cid_from_nonce_is_deterministic() {
    let a = HashedConnectionIdGenerator::from_key(99);
    let b = HashedConnectionIdGenerator::from_key(99);
    let nonce = [1u8, 2, 3];
    let cid = a.cid_from_nonce(&nonce);
    assert_eq!(cid, b.cid_from_nonce(&nonce));
    assert_eq!(&cid.as_bytes()[..NONCE_LEN], &nonce[..]);
    assert_eq!(cid.len(), 8);
    assert!(a.validate(&cid).is_ok());
}

#[test]
fn hashed_signature_depends_on_key() {
    let nonce = [9u8, 8, 7];
    let a = HashedConnectionIdGenerator::from_key(1).cid_from_nonce(&nonce);
    let b = HashedConnectionIdGenerator::from_key(2).cid_from_nonce(&nonce);
    assert_ne!(a, b);
    assert_eq!(&a.as_bytes()[..NONCE_LEN], &b.as_bytes()[..NONCE_LEN]);
}

#[test]
fn hashed_validate_rejects_wrong_lengths() {
    let generator = HashedConnectionIdGenerator::from_key(5);
    let cid = generator.cid_from_nonce(&[4, 5, 6]);
    let short: Vec<u8> = cid.as_bytes()[..7].to_vec();
    let mut long: Vec<u8> = cid.as_bytes().to_vec();
    long.push(0);
    for bytes in [vec![], vec![4, 5], short, long] {
        assert!(generator.validate(&ConnectionId::new(&bytes)).is_err());
    }
}

#[test]
fn truncated_signature_takes_low_bytes_little_endian() {
    assert_eq!(truncated_signature(0x0102_0304_0506_0708), vec![8, 7, 6, 5, 4]);
    assert_eq!(truncated_signature(0), vec![0; 5]);
    assert_eq!(truncated_signature(u64::MAX), vec![0xff; 5]);
}

#[test]
fn signature_matches_exact_bytes_only() {
    let digest = 0xaabb_ccdd_eeff_1122u64;
    assert!(signature_matches(digest, &[0x22, 0x11, 0xff, 0xee, 0xdd]));
    assert!(!signature_matches(digest, &[0x22, 0x11, 0xff, 0xee, 0xdc]));
    assert!(!signature_matches(digest, &[0x22, 0x11, 0xff, 0xee]));
    assert!(!signature_matches(digest, &[0x22, 0x11, 0xff, 0xee, 0xdd, 0xcc]));
}

#[test]
fn lifetime_is_last_configured_value() {
    let mut random = RandomConnectionIdGenerator::new(8);
    assert_eq!(random.cid_lifetime(), None);
    random.set_lifetime(Duration::from_secs(10));
    assert_eq!(random.cid_lifetime(), Some(Duration::from_secs(10)));
    random.set_lifetime(Duration::from_millis(1500));
    assert_eq!(random.cid_lifetime(), Some(Duration::from_millis(1500)));

    let mut hashed = HashedConnectionIdGenerator::from_key(3);
    assert_eq!(hashed.cid_lifetime(), None);
    hashed
        .set_lifetime(Duration::from_secs(1))
        .set_lifetime(Duration::from_secs(30));
    assert_eq!(hashed.cid_lifetime(), Some(Duration::from_secs(30)));
    assert_eq!(HashedConnectionIdGenerator::default().cid_lifetime(), None);
}

#[test]
fn keyed_scenario() {
    let mut first = HashedConnectionIdGenerator::from_key(0x1234_5678_9abc_def0);
    let cid = first.generate_cid();
    assert!(first.validate(&cid).is_ok());
    let second = HashedConnectionIdGenerator::from_key(0x5678_9abc_def0_1234);
    assert!(matches!(second.validate(&cid), Err(InvalidCid)));
}

#[test]
fn connection_id_keeps_its_bytes() {
    let cid = ConnectionId::new(&[1, 2, 3]);
    assert_eq!(cid.as_bytes(), &[1, 2, 3]);
    assert_eq!(cid.len(), 3);
    assert!(!cid.is_empty());
    assert_eq!(cid.clone(), cid);
}
