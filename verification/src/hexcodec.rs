//! Hexadecimal encoding and decoding of bytes, through the `hex` crate.
use vstd::prelude::*;
use vstd::string::StringSliceAdditionalSpecFns;
use vstd::string::StringExecFns;
use crate::text::{char_debug, char_debug_text, decimal, hex_digit_lower, push_decimal};

verus! {

/// Why a text is not the hexadecimal form of some bytes: the cases of the `hex`
/// crate's decoding error.
#[derive(Debug, Clone, Copy, PartialEq, Eq, Structural)]
pub enum HexError {
    /// The byte at position `index`, read as the character `c`, is not a hexadecimal
    /// digit.
    InvalidHexCharacter { c: char, index: usize },
    /// The text has an odd number of bytes.
    OddLength,
    /// The text does not have the length a fixed-size result needs.
    InvalidStringLength,
}

/// The position of the first byte of `b` that is not a hexadecimal digit.
pub open spec fn first_invalid_digit(b: Seq<u8>) -> int {
    choose|i: int| 0 <= i < b.len() && hex_value(b[i]).is_none()
        && forall|j: int| 0 <= j < i ==> (#[trigger] hex_value(b[j])).is_some()
}

/// The error with which decoding the text of bytes `b` fails, when it fails: an odd
/// length first, otherwise the first byte that is not a hexadecimal digit.
pub open spec fn hex_decode_error(b: Seq<u8>) -> HexError {
    if b.len() % 2 != 0 {
        HexError::OddLength
    } else {
        let i = first_invalid_digit(b);
        HexError::InvalidHexCharacter { c: b[i] as char, index: i as usize }
    }
}

/// Value of the hexadecimal digit `b` (either case), if it is one.
pub open spec fn hex_value(b: u8) -> Option<u8> {
    if 48 <= b <= 57 {
        Some((b - 48) as u8)
    } else if 97 <= b <= 102 {
        Some((b - 87) as u8)
    } else if 65 <= b <= 70 {
        Some((b - 55) as u8)
    } else {
        None
    }
}

/// Bytes that the hexadecimal text `b` (given by its bytes) stands for, if it is one:
/// an even number of hexadecimal digits, two per byte, most significant first.
pub open spec fn hex_decode_spec(b: Seq<u8>) -> Option<Seq<u8>> {
    if b.len() % 2 != 0 {
        None
    } else if exists|i: int| 0 <= i < b.len() && (#[trigger] hex_value(b[i])).is_none() {
        None
    } else {
        Some(Seq::new(b.len() / 2, |i: int| (hex_value(b[2 * i]).unwrap() * 16 + hex_value(b[2 * i + 1]).unwrap()) as u8))
    }
}

/// Lowercase hexadecimal rendering of `b`, two digits per byte.
pub open spec fn hex_encode_spec(b: Seq<u8>) -> Seq<char> {
    Seq::new(2 * b.len(), |i: int| if i % 2 == 0 {
        hex_digit_lower((b[i / 2] / 16) as nat)
    } else {
        hex_digit_lower((b[i / 2] % 16) as nat)
    })
}

/// Decodes the hexadecimal text `s` (`hex::decode`): `Ok` exactly when the bytes of
/// `s` are an even number of hexadecimal digits of either case, with the bytes they
/// stand for; otherwise the case of the error (see [`hex_decode_error`]).
#[verifier::external_body]
pub(crate) fn hex_decode(s: &str) -> (res: Result<Vec<u8>, HexError>)
    ensures
        res.is_ok() <==> hex_decode_spec(s.spec_bytes()).is_some(),
        res matches Ok(v) ==> Some(v@) == hex_decode_spec(s.spec_bytes()),
        res matches Err(e) ==> e == hex_decode_error(s.spec_bytes()),
{
    match hex::decode(s) {
        Ok(v) => Ok(v),
        Err(hex::FromHexError::InvalidHexCharacter { c, index }) => Err(HexError::InvalidHexCharacter { c, index }),
        Err(hex::FromHexError::OddLength) => Err(HexError::OddLength),
        Err(hex::FromHexError::InvalidStringLength) => Err(HexError::InvalidStringLength),
    }
}

/// The text of a decoding error, as the `hex` crate displays it: the character is
/// written as Rust's `Debug` writes a `char`.
pub open spec fn hex_error_text(e: HexError) -> Seq<char> {
    match e {
        HexError::InvalidHexCharacter { c, index } => "Invalid character "@ + char_debug_text(c) + " at position "@
            + decimal(index as nat),
        HexError::OddLength => "Odd number of digits"@,
        HexError::InvalidStringLength => "Invalid string length"@,
    }
}

/// The text of a decoding error (see [`hex_error_text`]).
pub fn hex_error_message(e: HexError) -> (m: String)
    ensures
        m@ == hex_error_text(e),
{
    match e {
        HexError::InvalidHexCharacter { c, index } => {
            let mut m = "Invalid character ".to_string();
            m.append(char_debug(c).as_str());
            m.append(" at position ");
            push_decimal(&mut m, index as u64);
            m
        },
        HexError::OddLength => "Odd number of digits".to_string(),
        HexError::InvalidStringLength => "Invalid string length".to_string(),
    }
}

/// Encodes `data` as lowercase hexadecimal text (`hex::encode`).
#[verifier::external_body]
pub(crate) fn hex_encode(data: &[u8]) -> (s: String)
    ensures
        s@ == hex_encode_spec(data@),
{
    hex::encode(data)
}

} // verus!
