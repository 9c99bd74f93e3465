//! Fixed-length opaque identifiers with a hexadecimal text form.
use vstd::prelude::*;

use crate::codec::{hex_decode, hex_decoded, hex_encode, is_id_text, is_lower_hex_of};
use crate::error::Error;

verus! {

/// Length in bytes of a device address.
pub const DEVICE_ID_LENGTH: usize = 10;

/// An identifier of exactly `N` bytes. Equality and ordering are those of the
/// bytes, compared lexicographically.
#[derive(Debug, Eq, PartialOrd, Ord, Hash)]
pub struct FixedId<const N: usize> {
    bytes: Vec<u8>,
}

/// The address of a device on the overlay.
pub type DeviceID = FixedId<DEVICE_ID_LENGTH>;

impl<const N: usize> View for FixedId<N> {
    type V = Seq<u8>;

    closed spec fn view(&self) -> Seq<u8> {
        self.bytes@
    }
}

impl<const N: usize> FixedId<N> {
    #[verifier::type_invariant]
    spec fn inv(&self) -> bool {
        self.bytes.len() == N
    }

    /// Wraps exactly `N` bytes.
    pub fn from_bytes(inner: [u8; N]) -> (r: Self)
        ensures
            r@ == inner@,
    {
        let mut bytes: Vec<u8> = Vec::new();
        let mut i: usize = 0;
        while i < N
            invariant
                i <= N,
                inner@.len() == N,
                bytes@ == inner@.subrange(0, i as int),
            decreases N - i,
        {
            bytes.push(inner[i]);
            i = i + 1;
        }
        assert(bytes@ =~= inner@);
        FixedId { bytes }
    }

    /// Copies a byte sequence into an identifier; fails unless it holds exactly `N` bytes.
    pub fn try_from_slice(value: &[u8]) -> (r: Result<Self, Error>)
        ensures
            r is Ok <==> value@.len() == N,
            r is Ok ==> r->Ok_0@ == value@,
            r is Err ==> r->Err_0 is InvalidLength,
    {
        if value.len() != N {
            return Err(Error::InvalidLength);
        }
        let mut bytes: Vec<u8> = Vec::new();
        let mut i: usize = 0;
        while i < value.len()
            invariant
                i <= value@.len(),
                bytes@ == value@.subrange(0, i as int),
            decreases value@.len() - i,
        {
            bytes.push(value[i]);
            i = i + 1;
        }
        assert(bytes@ =~= value@);
        Ok(FixedId { bytes })
    }

    /// Takes a vector of bytes as an identifier; fails unless it holds exactly `N` bytes.
    pub fn try_from_vec(value: Vec<u8>) -> (r: Result<Self, Error>)
        ensures
            r is Ok <==> value@.len() == N,
            r is Ok ==> r->Ok_0@ == value@,
            r is Err ==> r->Err_0 is InvalidLength,
    {
        if value.len() != N {
            return Err(Error::InvalidLength);
        }
        Ok(FixedId { bytes: value })
    }

    /// Reads the hexadecimal form, in either case; fails unless the text is
    /// exactly `2 * N` hexadecimal digits.
    pub fn parse(s: &str) -> (r: Result<Self, Error>)
        ensures
            r is Ok <==> is_id_text(s@, N as nat),
            r is Ok ==> r->Ok_0@ == hex_decoded(s@),
            r is Err ==> r->Err_0 is HexDecode,
    {
        match hex_decode(s) {
            Ok(bytes) => {
                if bytes.len() != N {
                    return Err(Error::HexDecode);
                }
                Ok(FixedId { bytes })
            },
            Err(_) => Err(Error::HexDecode),
        }
    }

    /// The canonical text: lower-case hexadecimal of the bytes.
    pub fn to_hex(&self) -> (r: String)
        ensures
            is_lower_hex_of(r@, self@),
            r@.len() == 2 * N,
    {
        proof {
            use_type_invariant(self);
        }
        hex_encode(self.bytes.as_slice())
    }

    /// The raw bytes; there are always `N` of them.
    pub fn as_bytes(&self) -> (r: &[u8])
        ensures
            r@ == self@,
            r@.len() == N,
    {
        proof {
            use_type_invariant(self);
        }
        self.bytes.as_slice()
    }

    /// Overwrites the byte at position `i`; the length stays `N`.
    pub fn set(&mut self, i: usize, v: u8)
        requires
            i < N,
        ensures
            final(self)@ == old(self)@.update(i as int, v),
    {
        proof {
            use_type_invariant(&*self);
        }
        let mut bytes: Vec<u8> = Vec::new();
        let mut j: usize = 0;
        while j < N
            invariant
                j <= N,
                i < N,
                self.bytes@.len() == N,
                bytes@ == self.bytes@.update(i as int, v).subrange(0, j as int),
            decreases N - j,
        {
            if j == i {
                bytes.push(v);
            } else {
                bytes.push(self.bytes[j]);
            }
            j = j + 1;
        }
        assert(bytes@ =~= self.bytes@.update(i as int, v));
        *self = FixedId { bytes };
    }

    /// The identifier length, which is `N` for every identifier of this type.
    pub fn len(&self) -> (r: usize)
        ensures
            r == N,
            self@.len() == N,
    {
        proof {
            use_type_invariant(self);
        }
        self.bytes.len()
    }

    /// Compares the bytes of two identifiers.
    pub fn same_bytes(&self, other: &Self) -> (r: bool)
        ensures
            r == (self@ == other@),
    {
        proof {
            use_type_invariant(self);
            use_type_invariant(other);
        }
        let mut i: usize = 0;
        while i < self.bytes.len()
            invariant
                self.bytes@.len() == N,
                other.bytes@.len() == N,
                i <= N,
                forall|j: int| 0 <= j < i ==> self.bytes@[j] == other.bytes@[j],
            decreases N - i,
        {
            if self.bytes[i] != other.bytes[i] {
                return false;
            }
            i = i + 1;
        }
        assert(self.bytes@ =~= other.bytes@);
        true
    }
}

impl<const N: usize> Clone for FixedId<N> {
    fn clone(&self) -> (r: Self)
        ensures
            r@ == self@,
    {
        proof {
            use_type_invariant(self);
        }
        FixedId { bytes: self.bytes.clone() }
    }
}

impl<const N: usize> Default for FixedId<N> {
    /// The all-zero identifier.
    fn default() -> (r: Self)
        ensures
            r@ == Seq::new(N as nat, |i: int| 0u8),
    {
        let mut bytes: Vec<u8> = Vec::new();
        let mut i: usize = 0;
        while i < N
            invariant
                i <= N,
                bytes@ == Seq::new(i as nat, |j: int| 0u8),
            decreases N - i,
        {
            bytes.push(0u8);
            i = i + 1;
            assert(bytes@ =~= Seq::new(i as nat, |j: int| 0u8));
        }
        FixedId { bytes }
    }
}

impl<const N: usize> PartialEq for FixedId<N> {
    fn eq(&self, other: &Self) -> (r: bool)
        ensures
            r == (self@ == other@),
    {
        self.same_bytes(other)
    }
}

impl<const N: usize> vstd::std_specs::cmp::PartialEqSpecImpl for FixedId<N> {
    open spec fn obeys_eq_spec() -> bool {
        true
    }

    open spec fn eq_spec(&self, other: &Self) -> bool {
        self@ == other@
    }
}

} // verus!

verus! {

impl<const N: usize> From<[u8; N]> for FixedId<N> {
    fn from(inner: [u8; N]) -> (r: Self)
        ensures
            r@ == inner@,
    {
        FixedId::from_bytes(inner)
    }
}

impl<const N: usize> vstd::std_specs::convert::FromSpecImpl<[u8; N]> for FixedId<N> {
    open spec fn obeys_from_spec() -> bool {
        false
    }

    open spec fn from_spec(inner: [u8; N]) -> Self {
        arbitrary()
    }
}

impl<const N: usize> core::str::FromStr for FixedId<N> {
    type Err = Error;

    fn from_str(s: &str) -> Result<Self, Error> {
        FixedId::parse(s)
    }
}

} // verus!
