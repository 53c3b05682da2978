//! Hexadecimal text, as the `hex` crate reads and writes it.
use vstd::prelude::*;

verus! {

/// The value of one hexadecimal digit given as an ASCII byte; both cases are
/// accepted.
pub open spec fn hex_digit_value(c: u8) -> Option<u8> {
    if 48 <= c <= 57 {
        Some((c - 48) as u8)
    } else if 97 <= c <= 102 {
        Some((c - 87) as u8)
    } else if 65 <= c <= 70 {
        Some((c - 55) as u8)
    } else {
        None
    }
}

/// Bytes that decode as hexadecimal text: an even number of hex digits.
pub open spec fn is_hex_text(s: Seq<u8>) -> bool {
    &&& s.len() % 2 == 0
    &&& forall|i: int| 0 <= i < s.len() ==> (#[trigger] hex_digit_value(s[i])) is Some
}

/// The bytes that hexadecimal text stands for: each pair of digits, high
/// digit first, gives one byte.
pub open spec fn hex_text_value(s: Seq<u8>) -> Seq<u8> {
    Seq::new(
        s.len() / 2,
        |i: int| (hex_digit_value(s[2 * i])->0 * 16 + hex_digit_value(s[2 * i + 1])->0) as u8,
    )
}

/// The lower-case digit for a value below sixteen.
pub open spec fn lower_hex_digit(n: u8) -> char {
    if n < 10 {
        ((n + 48) as u8) as char
    } else {
        ((n + 87) as u8) as char
    }
}

/// Lower-case hexadecimal text of a byte string, two digits per byte, high
/// digit first.
pub open spec fn lower_hex_text(data: Seq<u8>) -> Seq<char> {
    Seq::new(
        2 * data.len(),
        |i: int|
            if i % 2 == 0 {
                lower_hex_digit(data[i / 2] / 16)
            } else {
                lower_hex_digit(data[i / 2] % 16)
            },
    )
}

#[verifier::external_type_specification]
#[verifier::external_body]
pub struct ExFromHexError(hex::FromHexError);

/// Calls `hex::decode`. It succeeds exactly on an even number of hex digits
/// of either case and then gives, for each pair, the byte whose high and low
/// halves the two digits name.
#[verifier::external_body]
pub(crate) fn hex_decode(data: &[u8]) -> (res: Result<Vec<u8>, hex::FromHexError>)
    ensures
        res is Ok <==> is_hex_text(data@),
        res matches Ok(v) ==> v@ == hex_text_value(data@),
{
    hex::decode(data)
}

/// Calls `hex::encode`, which writes two lower-case hex digits per byte,
/// high half first.
#[verifier::external_body]
pub(crate) fn hex_encode(data: &[u8]) -> (res: String)
    ensures
        res@ == lower_hex_text(data@),
{
    hex::encode(data)
}

} // verus!
