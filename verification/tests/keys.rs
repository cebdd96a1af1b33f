use rand::SeedableRng;
use sr25519::{DeriveJunction, Error, KeyPair, PublicKey, Signature};

fn hex_of(bytes: &[u8]) -> String {
    let mut s = String::new();
    for b in bytes {
        s.push_str(&format!("{:02x}", b));
    }
    s
}

#[test]
fn from_seed_is_deterministic() {
    let seed = [0u8; 32];
    let a = KeyPair::from_seed(&seed);
    let b = KeyPair::from_seed(&seed);
    assert_eq!(a.public_key().to_raw(), b.public_key().to_raw());
}

#[test]
fn zero_seed_is_reproducible() {
    let seed = [0u8; 32];
    let pk1 = KeyPair::from_seed(&seed).public_key().to_raw();
    let pk2 = KeyPair::from_seed(&seed).public_key().to_raw();
    assert_eq!(pk1, pk2);
    assert_eq!(pk1.len(), 32);
    // The zero seed must not map to the zero public key.
    assert_ne!(pk1, [0u8; 32]);
}

#[test]
fn sign_then_verify_succeeds() {
    let kp = KeyPair::from_seed(&[7u8; 32]);
    let msg = b"a message of no particular meaning";
    let sig = kp.sign(msg);
    assert!(kp.public_key().verify(&sig, msg));
}

#[test]
fn sign_then_verify_succeeds_on_empty_message() {
    let kp = KeyPair::from_seed(&[9u8; 32]);
    let sig = kp.sign(b"");
    assert!(kp.public_key().verify(&sig, b""));
}

#[test]
fn verify_rejects_wrong_key() {
    let k1 = KeyPair::from_seed(&[1u8; 32]);
    let k2 = KeyPair::from_seed(&[2u8; 32]);
    let msg = b"payment of one unit";
    let sig = k1.sign(msg);
    assert!(!k2.public_key().verify(&sig, msg));
}

#[test]
fn verify_rejects_tampered_message_and_signature() {
    let kp = KeyPair::from_seed(&[3u8; 32]);
    let msg = b"original";
    let sig = kp.sign(msg);
    assert!(!kp.public_key().verify(&sig, b"altered"));
    let mut raw = sig.to_raw();
    raw[0] ^= 0xff;
    let bad = Signature::from_raw(raw);
    assert!(!kp.public_key().verify(&bad, msg));
}

#[test]
fn signature_from_slice_checks_length() {
    assert!(matches!(
        Signature::from_slice(&[0u8; 63]),
        Err(Error::InvalidArgument { .. })
    ));
    assert!(matches!(
        Signature::from_slice(&[0u8; 65]),
        Err(Error::InvalidArgument { .. })
    ));
    let ok = Signature::from_slice(&[5u8; 64]).unwrap();
    assert_eq!(ok.to_raw(), [5u8; 64]);
}

#[test]
fn public_key_from_raw_round_trips() {
    let data = [4u8; 32];
    let pk = PublicKey::from_raw(data);
    assert_eq!(pk.to_raw(), data);
}

#[test]
fn soft_derivation_matches_public_derivation() {
    let kp = KeyPair::from_seed(&[11u8; 32]);
    let j = DeriveJunction::soft(&1u64.to_le_bytes());
    let child = kp.derive(&[j], None).unwrap();
    let public_child = kp.public_key().derive(&[j]).unwrap();
    assert_eq!(child.public_key().to_raw(), public_child.to_raw());
}

#[test]
fn soft_derivation_matches_public_derivation_on_longer_path() {
    let kp = KeyPair::from_seed(&[12u8; 32]);
    let path = [
        DeriveJunction::soft(&1u64.to_le_bytes()),
        DeriveJunction::soft(&2u64.to_le_bytes()),
        DeriveJunction::soft(b"account"),
    ];
    let child = kp.derive(&path, None).unwrap();
    let public_child = kp.public_key().derive(&path).unwrap();
    assert_eq!(child.public_key().to_raw(), public_child.to_raw());
}

#[test]
fn hard_junction_blocks_public_derivation() {
    let kp = KeyPair::from_seed(&[13u8; 32]);
    let path = [
        DeriveJunction::soft(&1u64.to_le_bytes()),
        DeriveJunction::hard(&2u64.to_le_bytes()),
    ];
    assert!(kp.public_key().derive(&path).is_none());
    // The secret-level derivation still succeeds.
    assert!(kp.derive(&path, None).is_ok());
}

#[test]
fn hard_and_soft_children_differ() {
    let kp = KeyPair::from_seed(&[14u8; 32]);
    let soft = kp
        .derive(&[DeriveJunction::soft(&1u64.to_le_bytes())], None)
        .unwrap();
    let hard = kp
        .derive(&[DeriveJunction::hard(&1u64.to_le_bytes())], None)
        .unwrap();
    assert_ne!(soft.public_key().to_raw(), hard.public_key().to_raw());
}

#[test]
fn derivation_is_order_sensitive() {
    let kp = KeyPair::from_seed(&[15u8; 32]);
    let j1 = DeriveJunction::soft(&1u64.to_le_bytes());
    let j2 = DeriveJunction::soft(&2u64.to_le_bytes());
    let a = kp.derive(&[j1, j2], None).unwrap();
    let b = kp.derive(&[j2, j1], None).unwrap();
    assert_ne!(a.public_key().to_raw(), b.public_key().to_raw());
}

#[test]
fn exported_seed_rebuilds_the_pair() {
    let kp = KeyPair::from_seed(&[21u8; 32]);
    let exported = kp.seed();
    assert_eq!(exported.len(), 64);
    let again = KeyPair::from_seed(&exported);
    assert_eq!(kp.public_key().to_raw(), again.public_key().to_raw());
}

#[test]
fn exported_seed_of_derived_pair_rebuilds_it() {
    let kp = KeyPair::from_seed(&[22u8; 32]);
    let child = kp
        .derive(&[DeriveJunction::hard(b"child")], None)
        .unwrap();
    let again = KeyPair::try_from_seed(&child.seed()).unwrap();
    assert_eq!(child.public_key().to_raw(), again.public_key().to_raw());
}

#[test]
fn from_string_accepts_hex_seed() {
    let seed = [23u8; 32];
    let text = format!("0x{}", hex_of(&seed));
    let from_text = KeyPair::from_string(&text, None).unwrap();
    let from_seed = KeyPair::from_seed(&seed);
    assert_eq!(from_text.public_key().to_raw(), from_seed.public_key().to_raw());
}

#[test]
fn from_string_rejects_nonsense() {
    let r = KeyPair::from_string("not a real mnemonic and not hex", None);
    assert!(matches!(r, Err(Error::InvalidArgument { .. })));
}

#[test]
fn from_string_accepts_a_mnemonic() {
    let phrase = "bottom drive obey lake curtain smoke basket hold race lonely fit walk";
    let a = KeyPair::from_string(phrase, None).unwrap();
    let b = KeyPair::from_string(phrase, None).unwrap();
    assert_eq!(a.public_key().to_raw(), b.public_key().to_raw());
    // A password changes the derived key.
    let c = KeyPair::from_string(phrase, Some("pw")).unwrap();
    assert_ne!(a.public_key().to_raw(), c.public_key().to_raw());
}

#[test]
fn try_from_seed_checks_length() {
    assert!(matches!(
        KeyPair::try_from_seed(&[0u8; 31]),
        Err(Error::InvalidArgument { .. })
    ));
    assert!(KeyPair::try_from_seed(&[0u8; 32]).is_ok());
}

#[test]
fn generate_yields_working_pairs() {
    let a = KeyPair::generate().unwrap();
    let b = KeyPair::generate().unwrap();
    // Two fresh pairs almost surely differ.
    assert_ne!(a.public_key().to_raw(), b.public_key().to_raw());
    let sig = a.sign(b"generated");
    assert!(a.public_key().verify(&sig, b"generated"));
}

#[test]
fn generate_with_is_deterministic_per_rng_seed() {
    let mut r1 = rand::rngs::StdRng::seed_from_u64(42);
    let mut r2 = rand::rngs::StdRng::seed_from_u64(42);
    let a = KeyPair::generate_with(&mut r1);
    let b = KeyPair::generate_with(&mut r2);
    assert_eq!(a.public_key().to_raw(), b.public_key().to_raw());
}
