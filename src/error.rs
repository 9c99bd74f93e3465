use vstd::prelude::*;

verus! {

/// Everything that can go wrong in this library.
#[derive(Debug)]
pub enum Error {
    /// A byte sequence does not have an identifier's fixed length.
    InvalidLength,
    /// Text that should be hexadecimal is not, or has the wrong length.
    HexDecode,
    /// Text that should be standard base64 is not.
    Base64Decode,
    /// The provider lacks an algorithm that the library needs, or it gives
    /// less output than the library needs.
    UnsupportedAlgorithm,
    /// The cryptography provider refused or failed an operation.
    Crypto(openssl::error::ErrorStack),
}

} // verus!
