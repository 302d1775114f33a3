//! Reading the verifying public key from its hexadecimal form, as it is
//! handed to the process at startup.

use crate::hex_text::decode;
use crate::hex_text::hex_decoded;
use crate::hex_text::HexError;
use crate::verification::PublicKey;
use crate::verification::SignatureFault;
use vstd::prelude::*;
use vstd::string::StringSliceAdditionalSpecFns;

verus! {

/// A value that was read from hexadecimal text.
#[derive(Debug, Clone)]
pub struct Hex<S>(pub S);

/// Why a text could not be read as a hexadecimal value.
#[derive(Debug, Clone, PartialEq, Eq)]
pub enum ParseHexError<SE> {
    /// The given string is not represented in hex.
    InvalidHex { source: HexError },
    /// When decoded from hex, the bytes still do not make a valid value.
    InvalidItem { source: SE },
}

/// A public key that can be made from a vector of bytes.
#[derive(Debug, Clone)]
pub struct PublicKeyOrphanRuleAvoidance(pub PublicKey);

impl PublicKeyOrphanRuleAvoidance {
    /// The public key made of the given bytes, which must be exactly 32.
    pub fn try_from(value: Vec<u8>) -> (outcome: Result<Self, SignatureFault>)
        ensures
            outcome is Ok <==> value@.len() == 32,
            outcome matches Ok(key) ==> key.0@ == value@,
            outcome matches Err(fault) ==> fault == SignatureFault::InvalidPublicKey,
    {
        match PublicKey::from_slice(value.as_slice()) {
            Ok(key) => Ok(PublicKeyOrphanRuleAvoidance(key)),
            Err(error) => Err(error),
        }
    }
}

impl Hex<PublicKeyOrphanRuleAvoidance> {
    /// Reads a public key from its hexadecimal form: 64 hexadecimal digits
    /// that stand for the key's 32 bytes.
    pub fn from_str(s: &str) -> (outcome: Result<Self, ParseHexError<SignatureFault>>)
        ensures
            match hex_decoded(s.spec_bytes()) {
                Ok(bytes) => if bytes.len() == 32 {
                    outcome matches Ok(key) && key.0.0@ == bytes
                } else {
                    outcome matches Err(ParseHexError::InvalidItem { source }) && source
                        == SignatureFault::InvalidPublicKey
                },
                Err(fault) => outcome matches Err(ParseHexError::InvalidHex { source }) && source
                    == fault,
            },
    {
        let bytes = match decode(s.as_bytes()) {
            Ok(bytes) => bytes,
            Err(source) => {
                return Err(ParseHexError::InvalidHex { source });
            },
        };
        match PublicKeyOrphanRuleAvoidance::try_from(bytes) {
            Ok(item) => Ok(Hex(item)),
            Err(source) => Err(ParseHexError::InvalidItem { source }),
        }
    }
}

} // verus!
