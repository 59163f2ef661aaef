use trust_graph::key_pair::{KeyPair, PublicKey};
use trust_graph::trust::{DecodeError, Trust, VerificationError, TRUST_LEN};

const SECOND: u64 = 1000;

fn not_a_key() -> Vec<u8> {
    let mut b = vec![0u8; 32];
    b[0] = 2;
    b
}

#[test]
fn test_gen_revoke_and_validate() {
    let truster = KeyPair::generate();
    let trusted = KeyPair::generate();

    let current = 100 * SECOND;
    let duration = 1000 * SECOND;
    let issued_at = 10 * SECOND;

    let trust = Trust::create(&truster, trusted.public_key(), duration, issued_at);

    assert_eq!(
        Trust::verify(&trust, &truster.public_key(), current).is_ok(),
        true
    );
}

#[test]
fn test_validate_corrupted_revoke() {
    let truster = KeyPair::generate();
    let trusted = KeyPair::generate();

    let current = 1000 * SECOND;
    let issued_at = 10 * SECOND;

    let trust = Trust::create(&truster, trusted.public_key(), current, issued_at);

    let corrupted_duration = 1234 * SECOND;
    let corrupted_trust = Trust::new(
        trust.pk,
        trust.expires_at,
        corrupted_duration,
        trust.signature,
    );

    assert!(Trust::verify(&corrupted_trust, &truster.public_key(), current).is_err());
}

#[test]
fn test_encode_decode() {
    let truster = KeyPair::generate();
    let trusted = KeyPair::generate();

    let current = 1000 * SECOND;
    let issued_at = 10 * SECOND;

    let trust = Trust::create(&truster, trusted.public_key(), current, issued_at);

    let encoded = trust.encode();
    let decoded = Trust::decode(encoded.as_slice()).unwrap();

    assert_eq!(trust, decoded);
}

#[test]
fn verify_succeeds_at_expiration_instant() {
    let truster = KeyPair::generate();
    let trusted = KeyPair::generate();
    let trust = Trust::create(&truster, trusted.public_key(), 1000 * SECOND, 10 * SECOND);
    assert_eq!(Trust::verify(&trust, &truster.public_key(), 1000 * SECOND), Ok(()));
    assert_eq!(Trust::verify(&trust, &truster.public_key(), 0), Ok(()));
}

#[test]
fn verify_expired_one_millisecond_late() {
    let truster = KeyPair::generate();
    let trusted = KeyPair::generate();
    let trust = Trust::create(&truster, trusted.public_key(), 1000 * SECOND, 10 * SECOND);
    assert_eq!(
        Trust::verify(&trust, &truster.public_key(), 1000 * SECOND + 1),
        Err(VerificationError::Expired)
    );
}

#[test]
fn expired_wins_over_forged() {
    let truster = KeyPair::generate();
    let other = KeyPair::generate();
    let trusted = KeyPair::generate();
    let trust = Trust::create(&truster, trusted.public_key(), 100 * SECOND, 10 * SECOND);
    assert_eq!(
        Trust::verify(&trust, &truster.public_key(), 1000 * SECOND),
        Err(VerificationError::Expired)
    );
    assert_eq!(
        Trust::verify(&trust, &other.public_key(), 1000 * SECOND),
        Err(VerificationError::Expired)
    );
}

#[test]
fn scenario_create_expire_tamper() {
    let truster = KeyPair::generate();
    let trusted = KeyPair::generate();
    let trust = Trust::create(&truster, trusted.public_key(), 1000 * SECOND, 10 * SECOND);
    assert_eq!(Trust::verify(&trust, &truster.public_key(), 100 * SECOND), Ok(()));

    let short = Trust::create(&truster, trusted.public_key(), 100 * SECOND, 10 * SECOND);
    assert_eq!(
        Trust::verify(&short, &truster.public_key(), 1000 * SECOND),
        Err(VerificationError::Expired)
    );

    let tampered = Trust::new(trust.pk, trust.expires_at, 1234 * SECOND, trust.signature);
    assert_eq!(
        Trust::verify(&tampered, &truster.public_key(), 100 * SECOND),
        Err(VerificationError::Forged)
    );
}

#[test]
fn wrong_issuer_is_forged() {
    let truster = KeyPair::generate();
    let other = KeyPair::generate();
    let trusted = KeyPair::generate();
    let trust = Trust::create(&truster, trusted.public_key(), 1000 * SECOND, 10 * SECOND);
    assert_eq!(
        Trust::verify(&trust, &other.public_key(), 100 * SECOND),
        Err(VerificationError::Forged)
    );
}

#[test]
fn changed_subject_key_is_forged() {
    let truster = KeyPair::generate();
    let trusted = KeyPair::generate();
    let intruder = KeyPair::generate();
    let trust = Trust::create(&truster, trusted.public_key(), 1000 * SECOND, 10 * SECOND);
    let tampered = Trust::new(intruder.public_key(), trust.expires_at, trust.issued_at, trust.signature);
    assert_eq!(
        Trust::verify(&tampered, &truster.public_key(), 100 * SECOND),
        Err(VerificationError::Forged)
    );
}

#[test]
fn changed_expiration_is_forged() {
    let truster = KeyPair::generate();
    let trusted = KeyPair::generate();
    let trust = Trust::create(&truster, trusted.public_key(), 1000 * SECOND, 10 * SECOND);
    let tampered = Trust::new(trust.pk, 2000 * SECOND, trust.issued_at, trust.signature);
    assert_eq!(
        Trust::verify(&tampered, &truster.public_key(), 100 * SECOND),
        Err(VerificationError::Forged)
    );
}

#[test]
fn changed_signature_byte_is_forged() {
    let truster = KeyPair::generate();
    let trusted = KeyPair::generate();
    let trust = Trust::create(&truster, trusted.public_key(), 1000 * SECOND, 10 * SECOND);
    let mut signature = trust.signature.clone();
    signature[0] ^= 1;
    let tampered = Trust::new(trust.pk, trust.expires_at, trust.issued_at, signature);
    assert_eq!(
        Trust::verify(&tampered, &truster.public_key(), 100 * SECOND),
        Err(VerificationError::Forged)
    );
}

#[test]
fn encode_layout() {
    let truster = KeyPair::generate();
    let trusted = KeyPair::generate();
    let trust = Trust::create(&truster, trusted.public_key(), 1000 * SECOND, 10 * SECOND);
    let encoded = trust.encode();
    assert_eq!(encoded.len(), 112);
    assert_eq!(TRUST_LEN, 112);
    assert_eq!(&encoded[0..32], trusted.public_key().as_bytes());
    assert_eq!(&encoded[32..96], trust.signature.as_slice());
    assert_eq!(&encoded[96..104], &[0x40, 0x42, 0x0f, 0, 0, 0, 0, 0]);
    assert_eq!(&encoded[104..112], &[0x10, 0x27, 0, 0, 0, 0, 0, 0]);
}

#[test]
fn canonical_message_layout() {
    let trusted = KeyPair::generate();
    let pk = trusted.public_key();
    let msg = Trust::trust_to_bytes(&pk, 0x0102030405060708, 10 * SECOND);
    assert_eq!(msg.len(), 48);
    assert_eq!(&msg[0..32], pk.as_bytes());
    assert_eq!(&msg[32..40], &[8, 7, 6, 5, 4, 3, 2, 1]);
    assert_eq!(&msg[40..48], &[0x10, 0x27, 0, 0, 0, 0, 0, 0]);
}

#[test]
fn decode_reads_fixed_offsets() {
    let trusted = KeyPair::generate();
    let pk = trusted.public_key();
    let mut bytes = pk.as_bytes().to_vec();
    bytes.extend((0..64).map(|i| i as u8));
    bytes.extend_from_slice(&u64::MAX.to_le_bytes());
    bytes.extend_from_slice(&[1, 0, 0, 0, 0, 0, 0, 0]);
    let t = Trust::decode(&bytes).unwrap();
    assert_eq!(t.pk, pk);
    assert_eq!(t.signature, (0..64).map(|i| i as u8).collect::<Vec<u8>>());
    assert_eq!(t.expires_at, u64::MAX);
    assert_eq!(t.issued_at, 1);
    assert_eq!(t.encode(), bytes);
}

#[test]
fn decode_rejects_other_lengths() {
    for len in [0usize, 1, 48, 104, 111, 113, 224] {
        let bytes = vec![0u8; len];
        assert_eq!(
            Trust::decode(&bytes),
            Err(DecodeError::BadLength { expected: 112, actual: len })
        );
    }
}

#[test]
fn decode_rejects_bad_key() {
    let mut bytes = not_a_key();
    bytes.extend_from_slice(&[0u8; 80]);
    assert_eq!(Trust::decode(&bytes), Err(DecodeError::KeyError));
}

#[test]
fn public_key_from_bytes() {
    let kp = KeyPair::generate();
    let pk = kp.public_key();
    assert_eq!(pk.as_bytes().len(), 32);
    assert_eq!(PublicKey::from_bytes(pk.as_bytes()), Some(pk.clone()));
    assert_eq!(PublicKey::from_bytes(&not_a_key()), None);
    assert_eq!(PublicKey::from_bytes(&pk.as_bytes()[0..31]), None);
    assert_ne!(KeyPair::generate().public_key(), pk);
}

#[test]
fn signature_is_64_bytes() {
    let truster = KeyPair::generate();
    let trusted = KeyPair::generate();
    let trust = Trust::create(&truster, trusted.public_key(), 1000 * SECOND, 10 * SECOND);
    assert_eq!(trust.signature.len(), 64);
    assert!(trust.signature.iter().any(|b| *b != 0));
}

#[test]
fn equality_sees_each_field() {
    let truster = KeyPair::generate();
    let trusted = KeyPair::generate();
    let trust = Trust::create(&truster, trusted.public_key(), 1000 * SECOND, 10 * SECOND);
    let same = Trust::new(trust.pk.clone(), trust.expires_at, trust.issued_at, trust.signature.clone());
    assert_eq!(trust, same);
    let later = Trust::new(trust.pk.clone(), trust.expires_at, trust.issued_at + 1, trust.signature.clone());
    assert_ne!(trust, later);
}
