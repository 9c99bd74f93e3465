//! Address derivation: an identifier from a public key by iterated hashing.
use vstd::prelude::*;

use crate::error::Error;
use crate::id::{DeviceID, FixedId, DEVICE_ID_LENGTH};
use crate::provider::{digest_by_nid, nid_digest};

verus! {

/// Numeric identifier of BLAKE2b-512, the digest used for addresses.
pub const BLAKE2B512_NID: i32 = 1056;

/// How many times the digest is applied, the first time to the key itself.
pub const ADDRESS_HASH_ROUNDS: usize = 32;

/// The digest applied `rounds` times to `data`.
pub open spec fn iterated_digest(data: Seq<u8>, rounds: nat) -> Seq<u8>
    decreases rounds,
{
    if rounds == 0 {
        data
    } else {
        nid_digest(BLAKE2B512_NID as int, iterated_digest(data, (rounds - 1) as nat))
    }
}

/// The address of a public key: the first bytes of its iterated digest.
pub open spec fn address_of(public_key: Seq<u8>) -> Seq<u8> {
    iterated_digest(public_key, ADDRESS_HASH_ROUNDS as nat).take(DEVICE_ID_LENGTH as int)
}

/// The address that a final digest gives: its first `DEVICE_ID_LENGTH` bytes.
/// Fails when the digest is shorter than that.
pub fn address_from_digest(digest: &[u8]) -> (r: Result<DeviceID, Error>)
    ensures
        r is Ok <==> digest@.len() >= DEVICE_ID_LENGTH,
        r is Ok ==> r->Ok_0@ == digest@.take(DEVICE_ID_LENGTH as int),
        r is Err ==> r->Err_0 is UnsupportedAlgorithm,
{
    if digest.len() < DEVICE_ID_LENGTH {
        return Err(Error::UnsupportedAlgorithm);
    }
    let mut prefix: Vec<u8> = Vec::new();
    let mut i: usize = 0;
    while i < DEVICE_ID_LENGTH
        invariant
            i <= DEVICE_ID_LENGTH <= digest@.len(),
            prefix@ == digest@.subrange(0, i as int),
        decreases DEVICE_ID_LENGTH - i,
    {
        prefix.push(digest[i]);
        i = i + 1;
    }
    match FixedId::try_from_vec(prefix) {
        Ok(id) => Ok(id),
        Err(e) => Err(e),
    }
}

/// Derives the address of a public key of any length. Fails only where the
/// provider lacks the digest or fails to compute it.
pub fn compute_address(public_key: &[u8]) -> (r: Result<DeviceID, Error>)
    ensures
        r is Ok ==> r->Ok_0@ == address_of(public_key@),
        r is Ok ==> r->Ok_0@.len() == DEVICE_ID_LENGTH,
        r is Err ==> (r->Err_0 is Crypto || r->Err_0 is UnsupportedAlgorithm),
{
    let mut current: Vec<u8> = Vec::new();
    let mut round: usize = 0;
    let mut started = false;
    while round < ADDRESS_HASH_ROUNDS
        invariant
            round <= ADDRESS_HASH_ROUNDS,
            started == (round > 0),
            started ==> current@ == iterated_digest(public_key@, round as nat),
        decreases ADDRESS_HASH_ROUNDS - round,
    {
        let input: &[u8] = if started { current.as_slice() } else { public_key };
        assert(input@ == iterated_digest(public_key@, round as nat));
        let next = match digest_by_nid(BLAKE2B512_NID, input) {
            None => return Err(Error::UnsupportedAlgorithm),
            Some(Err(e)) => return Err(Error::Crypto(e)),
            Some(Ok(d)) => d,
        };
        current = next;
        started = true;
        round = round + 1;
    }
    address_from_digest(current.as_slice())
}

/// The same public key always gives the same address.
pub proof fn lemma_address_deterministic(a: DeviceID, b: DeviceID, public_key: Seq<u8>)
    requires
        a@ == address_of(public_key),
        b@ == address_of(public_key),
    ensures
        a@ == b@,
{
}

} // verus!
