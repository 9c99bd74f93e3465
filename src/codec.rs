//! Hexadecimal and base64 text of byte sequences.
use vstd::prelude::*;

verus! {

/// An ASCII hexadecimal digit, in either case.
pub open spec fn is_hex_char(c: char) -> bool {
    let n = c as u32;
    (48 <= n <= 57) || (97 <= n <= 102) || (65 <= n <= 70)
}

/// An ASCII hexadecimal digit in lower case.
pub open spec fn is_lower_hex_char(c: char) -> bool {
    let n = c as u32;
    (48 <= n <= 57) || (97 <= n <= 102)
}

/// The value of a hexadecimal digit.
pub open spec fn hex_value(c: char) -> int {
    let n = c as u32 as int;
    if 48 <= n <= 57 {
        n - 48
    } else if 97 <= n <= 102 {
        n - 87
    } else if 65 <= n <= 70 {
        n - 55
    } else {
        0
    }
}

/// Text made of pairs of hexadecimal digits.
pub open spec fn is_hex_text(s: Seq<char>) -> bool {
    &&& s.len() % 2 == 0
    &&& forall|i: int| 0 <= i < s.len() ==> #[trigger] is_hex_char(s[i])
}

/// Text that is the hexadecimal form of exactly `n` bytes.
pub open spec fn is_id_text(s: Seq<char>, n: nat) -> bool {
    is_hex_text(s) && s.len() == 2 * n
}

/// The bytes that hexadecimal text stands for, two digits a byte, high digit first.
pub open spec fn hex_decoded(s: Seq<char>) -> Seq<u8> {
    Seq::new(s.len() / 2, |i: int| (hex_value(s[2 * i]) * 16 + hex_value(s[2 * i + 1])) as u8)
}

/// `s` is the lower-case hexadecimal form of `b`.
pub open spec fn is_lower_hex_of(s: Seq<char>, b: Seq<u8>) -> bool {
    &&& s.len() == 2 * b.len()
    &&& forall|i: int|
        0 <= i < b.len() ==> {
            &&& is_lower_hex_char(#[trigger] s[2 * i])
            &&& is_lower_hex_char(s[2 * i + 1])
            &&& hex_value(s[2 * i]) == b[i] / 16
            &&& hex_value(s[2 * i + 1]) == b[i] % 16
        }
}

/// The standard base64 alphabet.
pub open spec fn base64_alphabet() -> Seq<char> {
    seq![
        'A', 'B', 'C', 'D', 'E', 'F', 'G', 'H', 'I', 'J', 'K', 'L', 'M', 'N', 'O', 'P', 'Q', 'R',
        'S', 'T', 'U', 'V', 'W', 'X', 'Y', 'Z', 'a', 'b', 'c', 'd', 'e', 'f', 'g', 'h', 'i', 'j',
        'k', 'l', 'm', 'n', 'o', 'p', 'q', 'r', 's', 't', 'u', 'v', 'w', 'x', 'y', 'z', '0', '1',
        '2', '3', '4', '5', '6', '7', '8', '9', '+', '/'
    ]
}

/// The base64 character for a six-bit value.
pub open spec fn base64_char(n: int) -> char {
    base64_alphabet()[n]
}

/// The standard-alphabet, padded base64 text of `b`: each group of three
/// bytes becomes four characters, six bits each, high bits first; a final
/// group of one or two bytes is filled with zero bits and padded with `=`.
pub open spec fn base64_text(b: Seq<u8>) -> Seq<char>
    decreases b.len(),
{
    if b.len() == 0 {
        seq![]
    } else if b.len() == 1 {
        let x = b[0] as int;
        seq![base64_char(x / 4), base64_char((x % 4) * 16), '=', '=']
    } else if b.len() == 2 {
        let x = b[0] as int;
        let y = b[1] as int;
        seq![base64_char(x / 4), base64_char((x % 4) * 16 + y / 16), base64_char((y % 16) * 4), '=']
    } else {
        let x = b[0] as int;
        let y = b[1] as int;
        let z = b[2] as int;
        seq![
            base64_char(x / 4),
            base64_char((x % 4) * 16 + y / 16),
            base64_char((y % 16) * 4 + z / 64),
            base64_char(z % 64),
        ] + base64_text(b.subrange(3, b.len() as int))
    }
}

/// Decoding the lower-case hexadecimal form of some bytes gives those bytes back.
pub proof fn lemma_hex_round_trip(s: Seq<char>, b: Seq<u8>)
    requires
        is_lower_hex_of(s, b),
    ensures
        is_hex_text(s),
        is_id_text(s, b.len()),
        hex_decoded(s) == b,
{
    assert forall|j: int| 0 <= j < s.len() implies #[trigger] is_hex_char(s[j]) by {
        let i = j / 2;
        assert(0 <= i < b.len());
        assert(is_lower_hex_char(s[2 * i]));
        if j % 2 == 0 {
            assert(j == 2 * i);
        } else {
            assert(j == 2 * i + 1);
        }
    }
    let d = hex_decoded(s);
    assert forall|i: int| 0 <= i < b.len() implies d[i] == b[i] by {
        let x = b[i] as int;
        assert(x == (x / 16) * 16 + x % 16) by (nonlinear_arith);
        assert(hex_value(s[2 * i]) == x / 16);
        assert(hex_value(s[2 * i + 1]) == x % 16);
    }
    assert(d =~= b);
}

/// Relies on hex::encode: two lower-case digits for each byte, high digit first.
#[verifier::external_body]
pub(crate) fn hex_encode(b: &[u8]) -> (r: String)
    ensures
        is_lower_hex_of(r@, b@),
{
    hex::encode(b)
}

/// Relies on hex::decode: accepts pairs of hexadecimal digits of either case,
/// and nothing else, and gives one byte for each pair.
#[verifier::external_body]
pub(crate) fn hex_decode(s: &str) -> (r: Result<Vec<u8>, hex::FromHexError>)
    ensures
        r is Ok <==> is_hex_text(s@),
        r is Ok ==> r->Ok_0@ == hex_decoded(s@),
{
    hex::decode(s)
}

/// Relies on base64's STANDARD engine encoding: padded, standard alphabet.
#[verifier::external_body]
pub(crate) fn base64_encode(b: &[u8]) -> (r: String)
    ensures
        r@ == base64_text(b@),
{
    base64::Engine::encode(&base64::engine::general_purpose::STANDARD, b)
}

/// Relies on base64's STANDARD engine decoding, which requires canonical
/// padding and zero trailing bits: it accepts exactly the texts that its
/// encoding writes, and gives back the bytes they were written from.
#[verifier::external_body]
pub(crate) fn base64_decode(s: &str) -> (r: Result<Vec<u8>, base64::DecodeError>)
    ensures
        r is Ok ==> base64_text(r->Ok_0@) == s@,
        forall|b: Seq<u8>| #[trigger] base64_text(b) == s@ ==> (r is Ok && r->Ok_0@ == b),
{
    base64::Engine::decode(&base64::engine::general_purpose::STANDARD, s)
}

} // verus!
