//! Hexadecimal text and the bytes it stands for.

use vstd::prelude::*;

verus! {

/// Why a text is not the hexadecimal form of a byte string.
#[derive(Debug, Clone, Copy, PartialEq, Eq, Structural)]
pub enum HexError {
    /// The character `c`, at place `index`, is no hexadecimal digit.
    InvalidHexCharacter { c: char, index: usize },
    /// The text has an odd number of characters.
    OddLength,
    /// The text's length does not fit the place the bytes were meant for.
    InvalidStringLength,
}

/// The value of a hexadecimal digit, in either case.
pub open spec fn hex_digit(c: u8) -> Option<u8> {
    if 48 <= c <= 57 {
        Some((c - 48) as u8)
    } else if 97 <= c <= 102 {
        Some((c - 87) as u8)
    } else if 65 <= c <= 70 {
        Some((c - 55) as u8)
    } else {
        None
    }
}

/// The first `n` places of `text` hold hexadecimal digits only.
pub open spec fn all_hex_digits(text: Seq<u8>, n: int) -> bool {
    forall|i: int| 0 <= i < n ==> (#[trigger] hex_digit(text[i])) is Some
}

/// The bytes that a text of hexadecimal digits stands for: one byte for each
/// pair of digits, the first digit of a pair being the upper half.
pub open spec fn hex_bytes(text: Seq<u8>) -> Seq<u8> {
    Seq::new(
        (text.len() / 2) as nat,
        |k: int| (hex_digit(text[2 * k])->0 * 16 + hex_digit(text[2 * k + 1])->0) as u8,
    )
}

/// What decoding a hexadecimal text yields: its bytes, or the first thing
/// that is wrong with it. An odd length is found before a bad character.
pub open spec fn hex_decoded(text: Seq<u8>) -> Result<Seq<u8>, HexError> {
    if text.len() % 2 != 0 {
        Err(HexError::OddLength)
    } else if all_hex_digits(text, text.len() as int) {
        Ok(hex_bytes(text))
    } else {
        let index = choose|index: int|
            0 <= index < text.len() && hex_digit(text[index]) is None && all_hex_digits(text, index);
        Err(HexError::InvalidHexCharacter { c: text[index] as char, index: index as usize })
    }
}

/// The decoded form of a `Result` of decoding, as sequences.
pub open spec fn decoded_view(outcome: Result<Vec<u8>, HexError>) -> Result<Seq<u8>, HexError> {
    match outcome {
        Ok(bytes) => Ok(bytes@),
        Err(error) => Err(error),
    }
}

/// `hex::decode`: the bytes that a hexadecimal text stands for. A text of odd
/// length is refused as such; otherwise the first character that is no
/// hexadecimal digit is reported with its place.
#[verifier::external_body]
pub(crate) fn decode(text: &[u8]) -> (outcome: Result<Vec<u8>, HexError>)
    ensures
        decoded_view(outcome) == hex_decoded(text@),
{
    hex::decode(text).map_err(
        |error| match error {
            hex::FromHexError::InvalidHexCharacter { c, index } => HexError::InvalidHexCharacter {
                c,
                index,
            },
            hex::FromHexError::OddLength => HexError::OddLength,
            hex::FromHexError::InvalidStringLength => HexError::InvalidStringLength,
        },
    )
}

} // verus!
