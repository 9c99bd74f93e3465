use ringlink_identity::{
    address_from_digest, compute_address, DeviceID, Error, FixedId, Identity, IdentityRecord,
    PublicIdentity, DEVICE_ID_LENGTH, SIGNATURE_LENGTH,
};

const KNOWN_SECRET: &str = "9d61b19deffd5a60ba844af492ec2cc44449c5697b326919703bac031cae7f60";
const KNOWN_PUBLIC: &str = "d75a980182b10ab7d54bfed3c964073a0ee172f3daa62325af021a68f707511a";
const KNOWN_EMPTY_SIGNATURE: &str = "e5564300c360ac729086e2cc806e828a84877f1eb8e5d974d873e065224901555fb8821590a33bacc61e39701cf9b46bd25bf5f0595bbe24655141438e7a100b";

fn bytes_of(hex_text: &str) -> Vec<u8> {
    hex::decode(hex_text).unwrap()
}

fn known_identity() -> Identity {
    let record = IdentityRecord {
        id: "00112233445566778899".to_string(),
        sign: "nWGxne/9WmC6hEr0kuwsxERJxWl7MmkZcDusAxyuf2A=".to_string(),
    };
    Identity::deserialize(&record).unwrap()
}

#[test]
fn test_serialize() {
    let identity = Identity::generate().unwrap();
    let record = identity.serialize();
    let identity2 = Identity::deserialize(&record).unwrap();
    assert!(identity == identity2);
}

#[test]
fn address_of_known_key() {
    let id = compute_address(&bytes_of(KNOWN_PUBLIC)).unwrap();
    assert_eq!(id.to_hex(), "630a1c16ee91b5cf88ce");
}

#[test]
fn address_of_zero_key_and_empty_key() {
    assert_eq!(compute_address(&[0u8; 32]).unwrap().to_hex(), "19c4a5ac2241677a7415");
    assert_eq!(compute_address(&[]).unwrap().to_hex(), "286eb23b3be9ba58ae65");
}

#[test]
fn address_is_deterministic_and_sensitive() {
    let key = bytes_of(KNOWN_PUBLIC);
    let a = compute_address(&key).unwrap();
    let b = compute_address(&key).unwrap();
    assert_eq!(a, b);
    for i in 0..key.len() {
        let mut flipped = key.clone();
        flipped[i] ^= 0x01;
        assert_ne!(compute_address(&flipped).unwrap(), a);
    }
}

#[test]
fn address_length_is_fixed() {
    for len in [0usize, 1, 32, 100, 1000] {
        let key = vec![7u8; len];
        let id = compute_address(&key).unwrap();
        assert_eq!(id.len(), DEVICE_ID_LENGTH);
        assert_eq!(id.as_bytes().len(), DEVICE_ID_LENGTH);
    }
}

#[test]
fn address_from_short_digest() {
    assert!(matches!(address_from_digest(&[1, 2, 3]), Err(Error::UnsupportedAlgorithm)));
    let digest: Vec<u8> = (0u8..64).collect();
    let id = address_from_digest(&digest).unwrap();
    assert_eq!(id.as_bytes(), &digest[..DEVICE_ID_LENGTH]);
}

#[test]
fn sign_then_verify() {
    let identity = Identity::generate().unwrap();
    for message in [&b""[..], &b"hello"[..], &[0u8; 1000][..]] {
        let signature = identity.sign(message).unwrap();
        assert_eq!(signature.len(), SIGNATURE_LENGTH);
        assert!(identity.verify(message, &signature).unwrap());
    }
}

#[test]
fn signing_is_deterministic() {
    let identity = known_identity();
    let a = identity.sign(b"data").unwrap();
    let b = identity.sign(b"data").unwrap();
    assert_eq!(a, b);
}

#[test]
fn known_key_signs_known_signature() {
    let identity = known_identity();
    assert_eq!(identity.private_key(), &bytes_of(KNOWN_SECRET)[..]);
    let public = identity.public_identity().unwrap();
    assert_eq!(public.public_key(), &bytes_of(KNOWN_PUBLIC)[..]);
    let signature = identity.sign(b"").unwrap();
    assert_eq!(signature, bytes_of(KNOWN_EMPTY_SIGNATURE));
    assert!(public.verify(b"", &signature).unwrap());
}

#[test]
fn public_identity_verifies_and_rejects() {
    let identity = Identity::generate().unwrap();
    let other = Identity::generate().unwrap();
    let public = identity.public_identity().unwrap();
    assert_eq!(public.id(), identity.id());
    let signature = identity.sign(b"message").unwrap();
    assert!(public.verify(b"message", &signature).unwrap());
    assert!(!public.verify(b"massage", &signature).unwrap());
    let foreign = other.sign(b"message").unwrap();
    assert!(!public.verify(b"message", &foreign).unwrap());
}

#[test]
fn flipped_signature_byte_is_rejected() {
    let identity = Identity::generate().unwrap();
    let public = identity.public_identity().unwrap();
    let signature = identity.sign(b"payload").unwrap();
    for i in 0..signature.len() {
        let mut bad = signature.clone();
        bad[i] ^= 0x80;
        assert!(!identity.verify(b"payload", &bad).unwrap());
        assert!(!public.verify(b"payload", &bad).unwrap());
    }
}

#[test]
fn wrong_length_signature_is_invalid() {
    let identity = Identity::generate().unwrap();
    let public = identity.public_identity().unwrap();
    let signature = identity.sign(b"payload").unwrap();
    for bad in [&signature[..63], &[][..], &[0u8; 65][..]] {
        assert!(!identity.verify(b"payload", bad).unwrap());
        assert!(!public.verify(b"payload", bad).unwrap());
    }
}

#[test]
fn public_identity_from_key_derives_address() {
    let key = bytes_of(KNOWN_PUBLIC);
    let public = PublicIdentity::new(&key).unwrap();
    assert_eq!(public.id().to_hex(), "630a1c16ee91b5cf88ce");
    assert_eq!(public.public_key(), &key[..]);
}

#[test]
fn public_identity_with_id_keeps_it() {
    let id = DeviceID::parse("00112233445566778899").unwrap();
    let public = PublicIdentity::new_with_id(id.clone(), &bytes_of(KNOWN_PUBLIC)).unwrap();
    assert_eq!(public.id(), id);
}

#[test]
fn public_identity_rejects_bad_key() {
    assert!(matches!(PublicIdentity::new(&[1, 2, 3]), Err(Error::Crypto(_))));
}

#[test]
fn public_identity_record_round_trip() {
    let public = PublicIdentity::new(&bytes_of(KNOWN_PUBLIC)).unwrap();
    let record = public.serialize();
    assert_eq!(record.id, "630a1c16ee91b5cf88ce");
    assert_eq!(record.sign, "11qYAYKxCrfVS/7TyWQHOg7hcvPapiMlrwIaaPcHURo=");
    let back = PublicIdentity::deserialize(&record).unwrap();
    assert_eq!(back, public);
}

#[test]
fn identity_record_fields() {
    let record = known_identity().serialize();
    assert_eq!(record.id, "00112233445566778899");
    assert_eq!(record.sign, "nWGxne/9WmC6hEr0kuwsxERJxWl7MmkZcDusAxyuf2A=");
}

#[test]
fn malformed_records_are_errors() {
    let good_sign = "nWGxne/9WmC6hEr0kuwsxERJxWl7MmkZcDusAxyuf2A=".to_string();
    let short_id = IdentityRecord { id: "0011".to_string(), sign: good_sign.clone() };
    assert!(matches!(Identity::deserialize(&short_id), Err(Error::HexDecode)));
    let odd_id = IdentityRecord { id: "001122334455667788990".to_string(), sign: good_sign.clone() };
    assert!(matches!(Identity::deserialize(&odd_id), Err(Error::HexDecode)));
    let bad_char = IdentityRecord { id: "0011223344556677889g".to_string(), sign: good_sign.clone() };
    assert!(matches!(Identity::deserialize(&bad_char), Err(Error::HexDecode)));
    let non_ascii = IdentityRecord { id: "00112233445566778\u{e9}".to_string(), sign: good_sign };
    assert!(matches!(PublicIdentity::deserialize(&non_ascii), Err(Error::HexDecode)));
    let bad_b64 = IdentityRecord { id: "00112233445566778899".to_string(), sign: "not base64!".to_string() };
    assert!(matches!(Identity::deserialize(&bad_b64), Err(Error::Base64Decode)));
    assert!(matches!(PublicIdentity::deserialize(&bad_b64), Err(Error::Base64Decode)));
    let unpadded = IdentityRecord { id: "00112233445566778899".to_string(), sign: "AQID".to_string() };
    assert!(matches!(Identity::deserialize(&unpadded), Err(Error::Crypto(_))));
    assert!(matches!(PublicIdentity::deserialize(&unpadded), Err(Error::Crypto(_))));
}

#[test]
fn device_id_text_round_trip() {
    let id = DeviceID::from_bytes([0, 1, 2, 0xab, 0xcd, 0xef, 0x10, 0x20, 0xfe, 0xff]);
    let text = id.to_hex();
    assert_eq!(text, "000102abcdef1020feff");
    assert_eq!(DeviceID::parse(&text).unwrap(), id);
    assert_eq!(DeviceID::parse("000102ABCDEF1020FEFF").unwrap(), id);
}

#[test]
fn device_id_parse_errors() {
    assert!(matches!(DeviceID::parse(""), Err(Error::HexDecode)));
    assert!(matches!(DeviceID::parse("000102abcdef1020feff00"), Err(Error::HexDecode)));
    assert!(matches!(DeviceID::parse("zz0102abcdef1020feff"), Err(Error::HexDecode)));
}

#[test]
fn device_id_from_byte_sequences() {
    let bytes: Vec<u8> = (1u8..=10).collect();
    let a = DeviceID::try_from_slice(&bytes).unwrap();
    let b = DeviceID::try_from_vec(bytes.clone()).unwrap();
    assert_eq!(a, b);
    assert_eq!(a.as_bytes(), &bytes[..]);
    assert!(matches!(DeviceID::try_from_slice(&bytes[..9]), Err(Error::InvalidLength)));
    assert!(matches!(DeviceID::try_from_vec(vec![0u8; 11]), Err(Error::InvalidLength)));
}

#[test]
fn device_id_default_and_order() {
    let zero = DeviceID::default();
    assert_eq!(zero.to_hex(), "00000000000000000000");
    let one = DeviceID::from_bytes([0, 0, 0, 0, 0, 0, 0, 0, 0, 1]);
    let big = DeviceID::from_bytes([1, 0, 0, 0, 0, 0, 0, 0, 0, 0]);
    assert!(zero < one);
    assert!(one < big);
    let small: FixedId<2> = FixedId::from_bytes([0xca, 0xfe]);
    assert_eq!(small.to_hex(), "cafe");
}

#[test]
fn ping_scenario() {
    let identity = Identity::generate().unwrap();
    let record = identity.serialize();
    let restored = Identity::deserialize(&record).unwrap();
    let signature = identity.sign(b"ping").unwrap();
    let public = restored.public_identity().unwrap();
    assert!(public.verify(b"ping", &signature).unwrap());
}

#[test]
fn two_identities_differ() {
    let a = Identity::generate().unwrap();
    let b = Identity::generate().unwrap();
    assert_ne!(a.id(), b.id());
    assert!(a != b);
    let sa = a.sign(b"hello").unwrap();
    let sb = b.sign(b"hello").unwrap();
    assert!(!a.verify(b"hello", &sb).unwrap());
    assert!(!b.verify(b"hello", &sa).unwrap());
}

#[test]
fn identity_equality_and_clone() {
    let a = known_identity();
    let b = a.clone();
    assert!(a == b);
    let c = Identity::generate().unwrap();
    assert!(a != c);
}

#[test]
fn device_id_set_byte() {
    let mut id = DeviceID::default();
    id.set(0, 0xab);
    id.set(9, 0x01);
    assert_eq!(id.to_hex(), "ab000000000000000001");
    assert_eq!(id.len(), DEVICE_ID_LENGTH);
}

#[test]
fn restored_identity_signs_alike() {
    let identity = Identity::generate().unwrap();
    let restored = Identity::deserialize(&identity.serialize()).unwrap();
    assert_eq!(identity.sign(b"data").unwrap(), restored.sign(b"data").unwrap());
    assert_eq!(identity.private_key(), restored.private_key());
}

#[test]
fn rebuilt_public_identity_matches() {
    let identity = Identity::generate().unwrap();
    let public = identity.public_identity().unwrap();
    let rebuilt = PublicIdentity::new(public.public_key()).unwrap();
    assert_eq!(rebuilt, public);
    assert_eq!(public.public_key().len(), 32);
    assert_eq!(identity.private_key().len(), 32);
}

#[test]
fn wrong_length_public_keys_are_refused() {
    assert!(matches!(PublicIdentity::new(&[0u8; 31]), Err(Error::Crypto(_))));
    assert!(matches!(PublicIdentity::new(&[0u8; 33]), Err(Error::Crypto(_))));
    assert!(matches!(PublicIdentity::new(b""), Err(Error::Crypto(_))));
    let id = DeviceID::default();
    assert!(matches!(PublicIdentity::new_with_id(id.clone(), &[0u8; 31]), Err(Error::Crypto(_))));
    let kept = PublicIdentity::new_with_id(id.clone(), &bytes_of(KNOWN_PUBLIC)).unwrap();
    assert_eq!(kept.id(), id);
}

#[test]
fn identities_hash_by_value() {
    let mut set = std::collections::HashSet::new();
    let public = PublicIdentity::new(&bytes_of(KNOWN_PUBLIC)).unwrap();
    set.insert(public.clone());
    set.insert(public.clone());
    assert_eq!(set.len(), 1);
    let mut ids = std::collections::HashSet::new();
    ids.insert(known_identity());
    ids.insert(known_identity());
    assert_eq!(ids.len(), 1);
}
