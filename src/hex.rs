//! Hexadecimal text as the Esplora API writes and reads it: two digits per
//! byte, high nibble first.
use bitcoin::hex::error::HexToBytesError;
use vstd::prelude::*;

verus! {

/// The sixteen lower-case digits, in order of value.
pub open spec fn lower_digits() -> Seq<char> {
    seq!['0', '1', '2', '3', '4', '5', '6', '7', '8', '9', 'a', 'b', 'c', 'd', 'e', 'f']
}

pub open spec fn is_hex_digit(c: char) -> bool {
    ('0' <= c && c <= '9') || ('a' <= c && c <= 'f') || ('A' <= c && c <= 'F')
}

/// The value of a hex digit, either case.
pub open spec fn hex_digit_value(c: char) -> int {
    if '0' <= c && c <= '9' {
        c as int - '0' as int
    } else if 'a' <= c && c <= 'f' {
        c as int - 'a' as int + 10
    } else {
        c as int - 'A' as int + 10
    }
}

/// Text that decodes to bytes: an even number of hex digits.
pub open spec fn is_hex(s: Seq<char>) -> bool {
    s.len() % 2 == 0 && forall|i: int| 0 <= i < s.len() ==> is_hex_digit(#[trigger] s[i])
}

/// The bytes that hex text stands for, two digits each.
pub open spec fn hex_bytes(s: Seq<char>) -> Seq<u8> {
    Seq::new(
        s.len() / 2,
        |i: int| (16 * hex_digit_value(s[2 * i]) + hex_digit_value(s[2 * i + 1])) as u8,
    )
}

/// Decoding hex text: the bytes, or nothing where the text is not hex.
pub open spec fn hex_decode(s: Seq<char>) -> Option<Seq<u8>> {
    if is_hex(s) {
        Some(hex_bytes(s))
    } else {
        None
    }
}

/// Bytes written as lower-case hex, high nibble first.
pub open spec fn lower_hex(b: Seq<u8>) -> Seq<char> {
    Seq::new(
        2 * b.len(),
        |i: int|
            if i % 2 == 0 {
                lower_digits()[b[i / 2] as int / 16]
            } else {
                lower_digits()[b[i / 2] as int % 16]
            },
    )
}

proof fn lemma_lower_digit(n: int)
    requires
        0 <= n < 16,
    ensures
        is_hex_digit(lower_digits()[n]),
        hex_digit_value(lower_digits()[n]) == n,
{
    assert(lower_digits()[0] == '0');
    assert(lower_digits()[15] == 'f');
}

/// Hex written by the broadcast path reads back as the very same bytes.
pub proof fn lemma_hex_round_trip(b: Seq<u8>)
    ensures
        is_hex(lower_hex(b)),
        hex_decode(lower_hex(b)) == Some(b),
{
    let s = lower_hex(b);
    assert forall|i: int| 0 <= i < s.len() implies is_hex_digit(#[trigger] s[i]) by {
        lemma_lower_digit(b[i / 2] as int / 16);
        lemma_lower_digit(b[i / 2] as int % 16);
    }
    assert forall|i: int| 0 <= i < b.len() implies #[trigger] hex_bytes(s)[i] == b[i] by {
        let x = b[i] as int;
        lemma_lower_digit(x / 16);
        lemma_lower_digit(x % 16);
        assert((2 * i) / 2 == i);
        assert((2 * i + 1) / 2 == i);
        assert(s[2 * i] == lower_digits()[x / 16]);
        assert(s[2 * i + 1] == lower_digits()[x % 16]);
        assert(16 * (x / 16) + x % 16 == x);
    }
    assert(hex_bytes(s) =~= b);
}

/// Relies on `hex::FromHex for Vec<u8>` (hex-conservative, through bitcoin):
/// bytes for an even number of hex digits of either case, an error otherwise.
#[verifier::external_body]
pub(crate) fn bytes_from_hex(s: &str) -> (r: Result<Vec<u8>, HexToBytesError>)
    ensures
        match r {
            Ok(v) => hex_decode(s@) == Some(v@),
            Err(_) => hex_decode(s@) is None,
        },
{
    <Vec<u8> as bitcoin::hex::FromHex>::from_hex(s)
}

/// Relies on `hex::DisplayHex::to_lower_hex_string` (hex-conservative, through
/// bitcoin): two lower-case digits per byte, high nibble first.
#[verifier::external_body]
pub(crate) fn to_lower_hex(b: &[u8]) -> (r: String)
    ensures
        r@ == lower_hex(b@),
{
    bitcoin::hex::DisplayHex::to_lower_hex_string(b)
}

} // verus!
