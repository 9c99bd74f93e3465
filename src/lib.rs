//! Self-derived node identities: a fixed-length address computed from an
//! Ed25519 public key, signing and verification under that identity, and the
//! canonical textual records of both halves.

mod address;
mod codec;
mod error;
mod id;
mod identity;
mod provider;
mod record;

pub use address::{
    address_from_digest, address_of, compute_address, iterated_digest,
    lemma_address_deterministic, ADDRESS_HASH_ROUNDS, BLAKE2B512_NID,
};
pub use codec::{
    base64_text, hex_decoded, hex_value, is_hex_char, is_hex_text, is_id_text, is_lower_hex_char,
    is_lower_hex_of, lemma_hex_round_trip,
};
pub use error::Error;
pub use id::{DeviceID, FixedId, DEVICE_ID_LENGTH};
pub use identity::{
    lemma_rebuilt_public_identity, signature_verdict, verdict_matches, Identity, KeyedId, PublicIdentity,
    SIGNATURE_LENGTH,
};
pub use provider::{
    ed25519_private_accepted, ed25519_public_accepted, ed25519_public_of, ed25519_sign_outcome,
    ed25519_verify_outcome, nid_digest,
};
pub use record::{
    identity_outcome, lemma_record_round_trip, public_identity_outcome, record_decoding,
    IdentityRecord,
};
