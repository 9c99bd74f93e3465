//! Canonical textual records of identities: the address as lower-case
//! hexadecimal, the raw key as standard padded base64.
use vstd::prelude::*;

use crate::codec::{
    base64_decode, base64_encode, base64_text, hex_decoded, is_id_text, is_lower_hex_of,
    lemma_hex_round_trip,
};
use crate::error::Error;
use crate::id::{DeviceID, FixedId, DEVICE_ID_LENGTH};
use crate::identity::{Identity, KeyedId, PublicIdentity};
use crate::provider::{ed25519_private_accepted, ed25519_public_accepted};

verus! {

/// The textual record of an identity or a public identity: `id` holds the
/// address, `sign` the raw key.
#[derive(Clone, Debug)]
pub struct IdentityRecord {
    pub id: String,
    pub sign: String,
}

/// What decoding the record fields `id_text` and `sign_text` may give: a
/// hexadecimal error exactly when `id_text` is not an address, a base64 error
/// exactly when the address is fine and `sign_text` is no base64 text, a
/// provider error exactly when both fields are well-formed and `accepted`
/// refuses the key; on success the address and key that the fields spell.
pub open spec fn record_decoding(
    id_text: Seq<char>,
    sign_text: Seq<char>,
    accepted: spec_fn(Seq<u8>) -> bool,
    r: Result<KeyedId, Error>,
) -> bool {
    &&& (r matches Err(Error::HexDecode)) <==> !is_id_text(id_text, DEVICE_ID_LENGTH as nat)
    &&& (r matches Err(Error::Base64Decode)) <==> (is_id_text(id_text, DEVICE_ID_LENGTH as nat)
        && forall|b: Seq<u8>| #[trigger] base64_text(b) != sign_text)
    &&& r is Err ==> (r->Err_0 is HexDecode || r->Err_0 is Base64Decode || r->Err_0 is Crypto)
    &&& r is Ok ==> r->Ok_0.id == hex_decoded(id_text)
    &&& r is Ok ==> base64_text(r->Ok_0.key) == sign_text
    &&& forall|b: Seq<u8>| #[trigger] base64_text(b) == sign_text ==> (r is Ok ==> r->Ok_0.key == b)
    &&& forall|b: Seq<u8>|
        #[trigger] base64_text(b) == sign_text && is_id_text(id_text, DEVICE_ID_LENGTH as nat) ==> (
        r is Ok <==> accepted(b))
    &&& r is Ok ==> accepted(r->Ok_0.key)
}

/// The view of a decoded identity.
pub open spec fn identity_outcome(r: Result<Identity, Error>) -> Result<KeyedId, Error> {
    match r {
        Ok(i) => Ok(i@),
        Err(e) => Err(e),
    }
}

/// The view of a decoded public identity.
pub open spec fn public_identity_outcome(r: Result<PublicIdentity, Error>) -> Result<KeyedId, Error> {
    match r {
        Ok(p) => Ok(p@),
        Err(e) => Err(e),
    }
}

/// Writes the record fields of an address and a key.
fn encode_fields(id: &DeviceID, key: &[u8]) -> (r: IdentityRecord)
    ensures
        is_lower_hex_of(r.id@, id@),
        id@.len() == DEVICE_ID_LENGTH,
        r.sign@ == base64_text(key@),
{
    let _ = id.len();
    IdentityRecord { id: id.to_hex(), sign: base64_encode(key) }
}

/// Reads the address and the key bytes of a record, in that order.
fn decode_fields(record: &IdentityRecord) -> (r: Result<(DeviceID, Vec<u8>), Error>)
    ensures
        (r matches Err(Error::HexDecode)) <==> !is_id_text(record.id@, DEVICE_ID_LENGTH as nat),
        (r matches Err(Error::Base64Decode)) <==> (is_id_text(record.id@, DEVICE_ID_LENGTH as nat)
            && forall|b: Seq<u8>| #[trigger] base64_text(b) != record.sign@),
        r is Err ==> (r->Err_0 is HexDecode || r->Err_0 is Base64Decode),
        r is Ok ==> r->Ok_0.0@ == hex_decoded(record.id@),
        r is Ok ==> base64_text(r->Ok_0.1@) == record.sign@,
        forall|b: Seq<u8>| #[trigger] base64_text(b) == record.sign@ ==> (r is Ok && r->Ok_0.1@ == b)
            || !is_id_text(record.id@, DEVICE_ID_LENGTH as nat),
{
    let id = match FixedId::parse(record.id.as_str()) {
        Ok(id) => id,
        Err(e) => return Err(e),
    };
    match base64_decode(record.sign.as_str()) {
        Ok(raw) => Ok((id, raw)),
        Err(_) => Err(Error::Base64Decode),
    }
}

impl Identity {
    /// The record of this identity.
    pub fn serialize(&self) -> (r: IdentityRecord)
        ensures
            self@.id.len() == DEVICE_ID_LENGTH,
            is_lower_hex_of(r.id@, self@.id),
            r.sign@ == base64_text(self@.key),
            ed25519_private_accepted(self@.key),
    {
        let id = self.id();
        encode_fields(&id, self.private_key())
    }

    /// Reads an identity from its record. The address is taken as written,
    /// not derived from the key.
    pub fn deserialize(record: &IdentityRecord) -> (r: Result<Identity, Error>)
        ensures
            record_decoding(
                record.id@,
                record.sign@,
                |b: Seq<u8>| ed25519_private_accepted(b),
                identity_outcome(r),
            ),
    {
        let (id, raw_sign) = match decode_fields(record) {
            Ok(fields) => fields,
            Err(e) => return Err(e),
        };
        Identity::from_parts(id, raw_sign)
    }
}

impl PublicIdentity {
    /// The record of this public identity.
    pub fn serialize(&self) -> (r: IdentityRecord)
        ensures
            self@.id.len() == DEVICE_ID_LENGTH,
            is_lower_hex_of(r.id@, self@.id),
            r.sign@ == base64_text(self@.key),
            ed25519_public_accepted(self@.key),
    {
        let id = self.id();
        encode_fields(&id, self.public_key())
    }

    /// Reads a public identity from its record. The address is taken as
    /// written, not derived from the key.
    pub fn deserialize(record: &IdentityRecord) -> (r: Result<PublicIdentity, Error>)
        ensures
            record_decoding(
                record.id@,
                record.sign@,
                |b: Seq<u8>| ed25519_public_accepted(b),
                public_identity_outcome(r),
            ),
    {
        let (id, raw_sign) = match decode_fields(record) {
            Ok(fields) => fields,
            Err(e) => return Err(e),
        };
        PublicIdentity::new_with_id(id, raw_sign.as_slice())
    }
}

/// Decoding the record written for an address and a key that the provider
/// accepts succeeds and gives back that address and that key.
pub proof fn lemma_record_round_trip(
    x: KeyedId,
    id_text: Seq<char>,
    sign_text: Seq<char>,
    accepted: spec_fn(Seq<u8>) -> bool,
    r: Result<KeyedId, Error>,
)
    requires
        x.id.len() == DEVICE_ID_LENGTH,
        accepted(x.key),
        is_lower_hex_of(id_text, x.id),
        sign_text == base64_text(x.key),
        record_decoding(id_text, sign_text, accepted, r),
    ensures
        r is Ok,
        r->Ok_0 == x,
{
    lemma_hex_round_trip(id_text, x.id);
    assert(base64_text(x.key) == sign_text);
}

} // verus!
