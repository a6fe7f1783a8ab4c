//! Payloads on the wire: bytes as hex text behind a `0x` prefix.

use crate::model::{Notice, Rejection};
use hex::FromHexError;
use vstd::prelude::*;

verus! {

/// The sixteen hex digits, lower case, by value.
pub open spec fn hex_digits() -> Seq<char> {
    seq!['0', '1', '2', '3', '4', '5', '6', '7', '8', '9', 'a', 'b', 'c', 'd', 'e', 'f']
}

/// Bytes as hex text: two lower-case digits for each byte, the high half
/// first.
pub open spec fn hex_text(data: Seq<u8>) -> Seq<char> {
    Seq::new(
        2 * data.len(),
        |i: int|
            if i % 2 == 0 {
                hex_digits()[data[i / 2] as int / 16]
            } else {
                hex_digits()[data[i / 2] as int % 16]
            },
    )
}

/// The value of a hex digit of either case; `None` for any other character.
pub open spec fn hex_value(digit: char) -> Option<int> {
    if '0' <= digit <= '9' {
        Some(digit as int - '0' as int)
    } else if 'a' <= digit <= 'f' {
        Some(digit as int - 'a' as int + 10)
    } else if 'A' <= digit <= 'F' {
        Some(digit as int - 'A' as int + 10)
    } else {
        None
    }
}

/// Hex text stands for bytes when it has an even number of characters and
/// each of them is a hex digit.
pub open spec fn is_hex_text(text: Seq<char>) -> bool {
    &&& text.len() % 2 == 0
    &&& forall|i: int| 0 <= i < text.len() ==> (#[trigger] hex_value(text[i])) is Some
}

/// The bytes that hex text stands for: one for each pair of digits.
pub open spec fn hex_data(text: Seq<char>) -> Seq<u8> {
    Seq::new(
        text.len() / 2,
        |i: int| (hex_value(text[2 * i])->Some_0 * 16 + hex_value(text[2 * i + 1])->Some_0) as u8,
    )
}

/// Text without its `0x` prefix, if it has one.
pub open spec fn unprefixed(text: Seq<char>) -> Seq<char> {
    if text.len() >= 2 && text[0] == '0' && text[1] == 'x' {
        text.skip(2)
    } else {
        text
    }
}

/// Text behind a `0x` prefix.
pub open spec fn prefixed(text: Seq<char>) -> Seq<char> {
    seq!['0', 'x'] + text
}

/// The bytes that a payload carries: those of its hex text, taken without
/// the `0x` prefix where there is one. `None` if that is no hex text.
pub open spec fn payload_data(payload: Seq<char>) -> Option<Seq<u8>> {
    if is_hex_text(unprefixed(payload)) {
        Some(hex_data(unprefixed(payload)))
    } else {
        None
    }
}

/// `hex::FromHexError`, the error of `hex::decode`. Nothing is said about
/// what it holds: whatever it is, the payload was no hex text.
#[verifier::external_type_specification]
#[verifier::external_body]
pub struct ExFromHexError(FromHexError);

/// `hex::encode`, believed to write each byte as two lower-case hex digits,
/// the high half first, and nothing else.
#[verifier::external_body]
fn hex_encode(data: &[u8]) -> (text: String)
    ensures
        text@ == hex_text(data@),
{
    hex::encode(data)
}

/// `hex::decode`, believed to succeed exactly on an even number of hex
/// digits of either case, and then to give one byte for each pair, the first
/// digit being the high half.
///
/// It reads the text byte by byte. A character outside ASCII is encoded in
/// bytes that are no hex digits, so text with one is turned down like any
/// other.
#[verifier::external_body]
fn hex_decode(text: &str) -> (decoded: Result<Vec<u8>, FromHexError>)
    ensures
        decoded is Ok <==> is_hex_text(text@),
        decoded matches Ok(data) ==> data@ == hex_data(text@),
{
    hex::decode(text)
}

/// Reads the bytes out of a payload: strips one `0x` prefix, if there is one,
/// and decodes the rest as hex text.
pub fn decode_payload(payload: &str) -> (decoded: Result<Vec<u8>, Rejection>)
    ensures
        match payload_data(payload@) {
            Some(data) => decoded matches Ok(bytes) && bytes@ == data,
            None => decoded == Err::<Vec<u8>, Rejection>(Rejection::InvalidHex),
        },
{
    let length = payload.unicode_len();
    let digits = if length >= 2 && payload.get_char(0) == '0' && payload.get_char(1) == 'x' {
        payload.substring_char(2, length)
    } else {
        payload
    };
    match hex_decode(digits) {
        Ok(data) => Ok(data),
        Err(_) => Err(Rejection::InvalidHex),
    }
}

impl Notice {
    /// The notice that publishes `data`.
    pub fn new(data: &[u8]) -> (notice: Notice)
        ensures
            notice.payload@ == prefixed(hex_text(data@)),
    {
        let digits = hex_encode(data);
        let mut payload = String::from_str("0x");
        proof {
            reveal_strlit("0x");
        }
        payload.append(digits.as_str());
        Notice { payload }
    }
}

/// What a notice publishes can be read back: the payload of the notice for
/// some bytes carries exactly those bytes.
pub proof fn lemma_notice_round_trip(data: Seq<u8>)
    ensures
        payload_data(prefixed(hex_text(data))) == Some(data),
{
}

} // verus!
