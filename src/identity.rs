//! Private and public identities: sign and verify under a derived address.
use vstd::prelude::*;

use crate::address::{address_of, compute_address};
use crate::error::Error;
use crate::id::{DeviceID, DEVICE_ID_LENGTH};
use crate::provider::{
    ed25519_private_accepted, ed25519_public_accepted, ed25519_public_from_raw,
    ed25519_public_of, ed25519_public_of_raw, ed25519_sign_outcome, ed25519_sign_raw,
    ed25519_verify_outcome, ed25519_verify_raw, generate_ed25519, raw_private_key,
};

verus! {

/// Length in bytes of an Ed25519 signature. A signature of any other length
/// is rejected as invalid, not reported as an error.
pub const SIGNATURE_LENGTH: usize = 64;

/// What an identity is equal by: its address and its raw key bytes.
pub struct KeyedId {
    pub id: Seq<u8>,
    pub key: Seq<u8>,
}

/// Compares two byte sequences.
pub(crate) fn bytes_equal(a: &[u8], b: &[u8]) -> (r: bool)
    ensures
        r == (a@ == b@),
{
    if a.len() != b.len() {
        return false;
    }
    let mut i: usize = 0;
    while i < a.len()
        invariant
            a@.len() == b@.len(),
            i <= a@.len(),
            forall|j: int| 0 <= j < i ==> a@[j] == b@[j],
        decreases a@.len() - i,
    {
        if a[i] != b[i] {
            return false;
        }
        i = i + 1;
    }
    assert(a@ =~= b@);
    true
}

/// Copies a byte sequence into a vector.
pub(crate) fn bytes_to_vec(a: &[u8]) -> (r: Vec<u8>)
    ensures
        r@ == a@,
{
    let mut v: Vec<u8> = Vec::new();
    let mut i: usize = 0;
    while i < a.len()
        invariant
            i <= a@.len(),
            v@ == a@.subrange(0, i as int),
        decreases a@.len() - i,
    {
        v.push(a[i]);
        i = i + 1;
    }
    assert(v@ =~= a@);
    v
}

/// `r` is the verdict that the provider's outcome gives: its boolean where it
/// gave one, a provider error where it failed.
pub open spec fn verdict_matches(outcome: Option<bool>, r: Result<bool, Error>) -> bool {
    match outcome {
        Some(b) => r == Ok::<bool, Error>(b),
        None => r matches Err(Error::Crypto(_)),
    }
}

/// The verdict on a correctly sized signature, from the provider's answer:
/// its boolean as it is, and a provider failure as an error.
pub fn signature_verdict(checked: Result<bool, openssl::error::ErrorStack>) -> (r: Result<bool, Error>)
    ensures
        checked is Ok ==> r == Ok::<bool, Error>(checked->Ok_0),
        checked is Err ==> r matches Err(Error::Crypto(_)),
{
    match checked {
        Ok(b) => Ok(b),
        Err(e) => Err(Error::Crypto(e)),
    }
}

/// A node's private credential: its address, its raw Ed25519 private key,
/// which the provider accepts, and the public key that belongs to it.
#[derive(Hash)]
pub struct Identity {
    id: DeviceID,
    raw_sign: Vec<u8>,
    raw_public: Vec<u8>,
}

/// The shareable half of an identity: its address and its raw Ed25519 public
/// key, which the provider accepts.
#[derive(Debug, Hash)]
pub struct PublicIdentity {
    id: DeviceID,
    raw_sign: Vec<u8>,
}

impl View for Identity {
    type V = KeyedId;

    closed spec fn view(&self) -> KeyedId {
        KeyedId { id: self.id@, key: self.raw_sign@ }
    }
}

impl View for PublicIdentity {
    type V = KeyedId;

    closed spec fn view(&self) -> KeyedId {
        KeyedId { id: self.id@, key: self.raw_sign@ }
    }
}

impl Identity {
    #[verifier::type_invariant]
    spec fn inv(&self) -> bool {
        &&& ed25519_private_accepted(self.raw_sign@)
        &&& self.raw_public@ == ed25519_public_of(self.raw_sign@)
    }

    /// Assembles an identity from an address and a raw private key, as read
    /// back from a record. The address is taken as given, not derived from
    /// the key; the key must be one that the provider accepts.
    pub(crate) fn from_parts(id: DeviceID, raw_sign: Vec<u8>) -> (r: Result<Identity, Error>)
        ensures
            r is Ok <==> ed25519_private_accepted(raw_sign@),
            r is Ok ==> r->Ok_0@ == (KeyedId { id: id@, key: raw_sign@ }),
            r is Err ==> r->Err_0 is Crypto,
    {
        match ed25519_public_of_raw(raw_sign.as_slice()) {
            Ok(raw_public) => Ok(Identity { id, raw_sign, raw_public }),
            Err(e) => Err(Error::Crypto(e)),
        }
    }

    /// Generates a fresh random key pair and derives the address from its
    /// public key. Fails only where the provider does.
    pub fn generate() -> (r: Result<Identity, Error>)
        ensures
            r matches Ok(i) ==> i@.id == address_of(ed25519_public_of(i@.key)),
            r matches Ok(i) ==> i@.id.len() == DEVICE_ID_LENGTH,
            r matches Ok(i) ==> ed25519_private_accepted(i@.key),
            r is Err ==> (r->Err_0 is Crypto || r->Err_0 is UnsupportedAlgorithm),
    {
        let key = match generate_ed25519() {
            Ok(k) => k,
            Err(e) => return Err(Error::Crypto(e)),
        };
        let raw_sign = match raw_private_key(&key) {
            Ok(raw) => raw,
            Err(e) => return Err(Error::Crypto(e)),
        };
        let raw_public = match ed25519_public_of_raw(raw_sign.as_slice()) {
            Ok(pk) => pk,
            Err(e) => return Err(Error::Crypto(e)),
        };
        let id = match compute_address(raw_public.as_slice()) {
            Ok(id) => id,
            Err(e) => return Err(e),
        };
        Ok(Identity { id, raw_sign, raw_public })
    }

    /// Signs `data` itself with the private key; the scheme hashes internally
    /// and is deterministic. The signature verifies under the public half.
    pub fn sign(&self, data: &[u8]) -> (r: Result<Vec<u8>, Error>)
        ensures
            r is Ok <==> ed25519_sign_outcome(self@.key, data@) is Some,
            r matches Ok(s) ==> ed25519_sign_outcome(self@.key, data@) == Some(s@),
            r matches Ok(s) ==> s@.len() == SIGNATURE_LENGTH,
            r matches Ok(s) ==> ed25519_verify_outcome(ed25519_public_of(self@.key), data@, s@)
                == Some(true),
            r is Err ==> r->Err_0 is Crypto,
    {
        match ed25519_sign_raw(self.raw_sign.as_slice(), data) {
            Ok(signature) => Ok(signature),
            Err(e) => Err(Error::Crypto(e)),
        }
    }

    /// Checks a signature over `data` against this identity's public key.
    /// A signature of the wrong length is invalid.
    pub fn verify(&self, data: &[u8], signature: &[u8]) -> (r: Result<bool, Error>)
        ensures
            signature@.len() != SIGNATURE_LENGTH ==> r matches Ok(false),
            signature@.len() == SIGNATURE_LENGTH ==> verdict_matches(
                ed25519_verify_outcome(ed25519_public_of(self@.key), data@, signature@),
                r,
            ),
    {
        proof {
            use_type_invariant(self);
        }
        if signature.len() != SIGNATURE_LENGTH {
            return Ok(false);
        }
        signature_verdict(ed25519_verify_raw(self.raw_public.as_slice(), data, signature))
    }

    /// The public half: this identity's address as it is, and the public key
    /// of its private key. Fails only where the provider refuses that key.
    pub fn public_identity(&self) -> (r: Result<PublicIdentity, Error>)
        ensures
            r is Ok <==> ed25519_public_accepted(ed25519_public_of(self@.key)),
            r matches Ok(p) ==> p@ == (KeyedId { id: self@.id, key: ed25519_public_of(self@.key) }),
            r is Err ==> r->Err_0 is Crypto,
    {
        proof {
            use_type_invariant(self);
        }
        PublicIdentity::new_with_id(self.id.clone(), self.raw_public.as_slice())
    }

    /// The address.
    pub fn id(&self) -> (r: DeviceID)
        ensures
            r@ == self@.id,
    {
        self.id.clone()
    }

    /// The raw private key: the bytes that `sign` signs with, which the
    /// provider accepts.
    pub fn private_key(&self) -> (r: &[u8])
        ensures
            r@ == self@.key,
            ed25519_private_accepted(r@),
    {
        proof {
            use_type_invariant(self);
        }
        self.raw_sign.as_slice()
    }
}

impl PublicIdentity {
    #[verifier::type_invariant]
    spec fn inv(&self) -> bool {
        ed25519_public_accepted(self.raw_sign@)
    }

    /// Imports a public key and pairs it with `id` as given, without deriving
    /// the address from the key. Fails exactly when the provider refuses the key.
    pub fn new_with_id(id: DeviceID, sign: &[u8]) -> (r: Result<PublicIdentity, Error>)
        ensures
            r is Ok <==> ed25519_public_accepted(sign@),
            r is Ok ==> r->Ok_0@ == (KeyedId { id: id@, key: sign@ }),
            r is Err ==> r->Err_0 is Crypto,
    {
        match ed25519_public_from_raw(sign) {
            Ok(_) => Ok(PublicIdentity { id, raw_sign: bytes_to_vec(sign) }),
            Err(e) => Err(Error::Crypto(e)),
        }
    }

    /// Imports a public key, then derives its address from it. A key that
    /// the provider refuses is a provider error; past the import, only the
    /// digest can fail.
    pub fn new(sign: &[u8]) -> (r: Result<PublicIdentity, Error>)
        ensures
            !ed25519_public_accepted(sign@) ==> r matches Err(Error::Crypto(_)),
            r is Ok ==> r->Ok_0@ == (KeyedId { id: address_of(sign@), key: sign@ }),
            r is Ok ==> ed25519_public_accepted(sign@),
            r is Err ==> (r->Err_0 is Crypto || r->Err_0 is UnsupportedAlgorithm),
    {
        if let Err(e) = ed25519_public_from_raw(sign) {
            return Err(Error::Crypto(e));
        }
        let id = match compute_address(sign) {
            Ok(id) => id,
            Err(e) => return Err(e),
        };
        Ok(PublicIdentity { id, raw_sign: bytes_to_vec(sign) })
    }

    /// Checks a signature over `data` against this public key. A signature of
    /// the wrong length is invalid.
    pub fn verify(&self, data: &[u8], signature: &[u8]) -> (r: Result<bool, Error>)
        ensures
            signature@.len() != SIGNATURE_LENGTH ==> r matches Ok(false),
            signature@.len() == SIGNATURE_LENGTH ==> verdict_matches(
                ed25519_verify_outcome(self@.key, data@, signature@),
                r,
            ),
    {
        if signature.len() != SIGNATURE_LENGTH {
            return Ok(false);
        }
        signature_verdict(ed25519_verify_raw(self.raw_sign.as_slice(), data, signature))
    }

    /// The address.
    pub fn id(&self) -> (r: DeviceID)
        ensures
            r@ == self@.id,
    {
        self.id.clone()
    }

    /// The raw public key, which the provider accepts; it can build a new
    /// public identity.
    pub fn public_key(&self) -> (r: &[u8])
        ensures
            r@ == self@.key,
            ed25519_public_accepted(r@),
    {
        proof {
            use_type_invariant(self);
        }
        self.raw_sign.as_slice()
    }
}

/// A public identity rebuilt from the key that a generated identity exports
/// has the same address and key as that identity's public half.
pub proof fn lemma_rebuilt_public_identity(identity: KeyedId, public: KeyedId, rebuilt: KeyedId)
    requires
        identity.id == address_of(ed25519_public_of(identity.key)),
        public == (KeyedId { id: identity.id, key: ed25519_public_of(identity.key) }),
        rebuilt == (KeyedId { id: address_of(public.key), key: public.key }),
    ensures
        rebuilt == public,
{
}

impl Clone for Identity {
    fn clone(&self) -> (r: Self)
        ensures
            r@ == self@,
    {
        proof {
            use_type_invariant(self);
        }
        Identity {
            id: self.id.clone(),
            raw_sign: bytes_to_vec(self.raw_sign.as_slice()),
            raw_public: bytes_to_vec(self.raw_public.as_slice()),
        }
    }
}

impl Clone for PublicIdentity {
    fn clone(&self) -> (r: Self)
        ensures
            r@ == self@,
    {
        proof {
            use_type_invariant(self);
        }
        PublicIdentity { id: self.id.clone(), raw_sign: bytes_to_vec(self.raw_sign.as_slice()) }
    }
}

impl PartialEq for Identity {
    fn eq(&self, other: &Self) -> (r: bool)
        ensures
            r == (self@ == other@),
    {
        self.id.same_bytes(&other.id) && bytes_equal(self.raw_sign.as_slice(), other.raw_sign.as_slice())
    }
}

impl vstd::std_specs::cmp::PartialEqSpecImpl for Identity {
    open spec fn obeys_eq_spec() -> bool {
        true
    }

    open spec fn eq_spec(&self, other: &Self) -> bool {
        self@ == other@
    }
}

impl PartialEq for PublicIdentity {
    fn eq(&self, other: &Self) -> (r: bool)
        ensures
            r == (self@ == other@),
    {
        self.id.same_bytes(&other.id) && bytes_equal(self.raw_sign.as_slice(), other.raw_sign.as_slice())
    }
}

impl vstd::std_specs::cmp::PartialEqSpecImpl for PublicIdentity {
    open spec fn obeys_eq_spec() -> bool {
        true
    }

    open spec fn eq_spec(&self, other: &Self) -> bool {
        self@ == other@
    }
}

impl Eq for Identity {}

impl Eq for PublicIdentity {}

} // verus!
