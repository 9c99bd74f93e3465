//! The cryptography provider: declarations of openssl's types and the calls
//! that the library makes into it.
use vstd::prelude::*;

verus! {

#[verifier::external_type_specification]
#[verifier::external_body]
pub struct ExErrorStack(openssl::error::ErrorStack);

#[verifier::external_type_specification]
#[verifier::external_body]
pub struct ExFromHexError(hex::FromHexError);

#[verifier::external_type_specification]
#[verifier::external_body]
pub struct ExDecodeError(base64::DecodeError);

} // verus!

verus! {

#[verifier::external_type_specification]
#[verifier::external_body]
#[verifier::reject_recursive_types(T)]
pub struct ExPKey<T>(openssl::pkey::PKey<T>);

#[verifier::external_type_specification]
#[verifier::external_body]
pub struct ExPrivate(openssl::pkey::Private);

#[verifier::external_type_specification]
#[verifier::external_body]
pub struct ExPublic(openssl::pkey::Public);

/// The digest that the provider computes for the algorithm with numeric
/// identifier `nid`; it depends on the identifier and the data alone.
pub uninterp spec fn nid_digest(nid: int, data: Seq<u8>) -> Seq<u8>;

/// Relies on openssl's MessageDigest::from_nid (None where the provider has no
/// such algorithm) and openssl::hash::hash (the digest of `data`).
#[verifier::external_body]
pub(crate) fn digest_by_nid(nid: i32, data: &[u8]) -> (r: Option<Result<Vec<u8>, openssl::error::ErrorStack>>)
    ensures
        r matches Some(Ok(d)) ==> d@ == nid_digest(nid as int, data@),
{
    match openssl::hash::MessageDigest::from_nid(openssl::nid::Nid::from_raw(nid)) {
        Some(md) => Some(openssl::hash::hash(md, data).map(|d| d.to_vec())),
        None => None,
    }
}

/// Whether the provider takes `sk` as a raw Ed25519 private key and exports
/// its public half.
pub uninterp spec fn ed25519_private_accepted(sk: Seq<u8>) -> bool;

/// The Ed25519 public key of the raw private key `sk`.
pub uninterp spec fn ed25519_public_of(sk: Seq<u8>) -> Seq<u8>;

/// Whether the provider takes `pk` as a raw Ed25519 public key.
pub uninterp spec fn ed25519_public_accepted(pk: Seq<u8>) -> bool;

/// What signing `data` under the raw private key `sk` gives: the signature,
/// or `None` where the provider fails. The scheme is deterministic, so this
/// depends on the two arguments alone.
pub uninterp spec fn ed25519_sign_outcome(sk: Seq<u8>, data: Seq<u8>) -> Option<Seq<u8>>;

/// What checking `sig` over `data` under the raw public key `pk` gives: the
/// verdict, or `None` where the provider fails.
pub uninterp spec fn ed25519_verify_outcome(pk: Seq<u8>, data: Seq<u8>, sig: Seq<u8>) -> Option<bool>;

/// Relies on openssl's PKey::generate_ed25519: a fresh random key pair.
#[verifier::external_body]
pub(crate) fn generate_ed25519() -> (r: Result<openssl::pkey::PKey<openssl::pkey::Private>, openssl::error::ErrorStack>)
{
    openssl::pkey::PKey::generate_ed25519()
}

/// Relies on openssl's PKeyRef::raw_private_key: the private key's raw export.
#[verifier::external_body]
pub(crate) fn raw_private_key(key: &openssl::pkey::PKey<openssl::pkey::Private>) -> (r: Result<Vec<u8>, openssl::error::ErrorStack>)
{
    key.raw_private_key()
}

/// Relies on openssl's PKey::private_key_from_raw_bytes with the Ed25519 key
/// type, and PKeyRef::raw_public_key: the public half of a raw private key.
#[verifier::external_body]
pub(crate) fn ed25519_public_of_raw(sk: &[u8]) -> (r: Result<Vec<u8>, openssl::error::ErrorStack>)
    ensures
        r is Ok <==> ed25519_private_accepted(sk@),
        r matches Ok(pk) ==> pk@ == ed25519_public_of(sk@),
{
    openssl::pkey::PKey::private_key_from_raw_bytes(sk, openssl::pkey::Id::ED25519)?.raw_public_key()
}

/// Relies on openssl's PKey::public_key_from_raw_bytes with the Ed25519 key type.
#[verifier::external_body]
pub(crate) fn ed25519_public_from_raw(bytes: &[u8]) -> (r: Result<openssl::pkey::PKey<openssl::pkey::Public>, openssl::error::ErrorStack>)
    ensures
        r is Ok <==> ed25519_public_accepted(bytes@),
{
    openssl::pkey::PKey::public_key_from_raw_bytes(bytes, openssl::pkey::Id::ED25519)
}

/// Relies on openssl's PKey::private_key_from_raw_bytes with the Ed25519 key
/// type, Signer::new_without_digest and Signer::sign_oneshot_to_vec: the
/// detached signature of `data` itself, with no digest applied first. As the
/// documentation of PKey::generate_ed25519 shows, it is 64 bytes long, and,
/// as the module documentation of openssl::sign says, the corresponding
/// public key verifies it.
#[verifier::external_body]
pub(crate) fn ed25519_sign_raw(sk: &[u8], data: &[u8]) -> (r: Result<Vec<u8>, openssl::error::ErrorStack>)
    ensures
        r is Ok <==> ed25519_sign_outcome(sk@, data@) is Some,
        r matches Ok(s) ==> ed25519_sign_outcome(sk@, data@) == Some(s@),
        r matches Ok(s) ==> s@.len() == 64,
        r matches Ok(s) ==> ed25519_verify_outcome(ed25519_public_of(sk@), data@, s@) == Some(true),
{
    let key = openssl::pkey::PKey::private_key_from_raw_bytes(sk, openssl::pkey::Id::ED25519)?;
    let mut signer = openssl::sign::Signer::new_without_digest(&key)?;
    let signature = signer.sign_oneshot_to_vec(data);
    signature
}

/// Relies on openssl's PKey::public_key_from_raw_bytes with the Ed25519 key
/// type, Verifier::new_without_digest and Verifier::verify_oneshot: the
/// verdict on `sig` over `data` itself.
#[verifier::external_body]
pub(crate) fn ed25519_verify_raw(pk: &[u8], data: &[u8], sig: &[u8]) -> (r: Result<bool, openssl::error::ErrorStack>)
    ensures
        r is Ok <==> ed25519_verify_outcome(pk@, data@, sig@) is Some,
        r matches Ok(b) ==> ed25519_verify_outcome(pk@, data@, sig@) == Some(b),
{
    let key = openssl::pkey::PKey::public_key_from_raw_bytes(pk, openssl::pkey::Id::ED25519)?;
    let mut verifier = openssl::sign::Verifier::new_without_digest(&key)?;
    let verdict = verifier.verify_oneshot(sig, data);
    verdict
}

} // verus!

