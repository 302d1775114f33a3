use discord_bot::hex_text::HexError;
use discord_bot::parse_hex_public_key::{Hex, ParseHexError, PublicKeyOrphanRuleAvoidance};
use discord_bot::verification::SignatureFault;

#[test]
fn reads_a_key_from_sixty_four_digits() {
    let text = "000102030405060708090a0b0c0d0e0f101112131415161718191A1B1C1D1E1F";
    let Hex(PublicKeyOrphanRuleAvoidance(key)) = Hex::<PublicKeyOrphanRuleAvoidance>::from_str(text)
        .expect("a key");
    assert_eq!(key.to_vec(), (0..32).collect::<Vec<u8>>());
}

#[test]
fn reads_both_halves_of_a_byte() {
    let text = format!("f0{}", "0f".repeat(31));
    let Hex(PublicKeyOrphanRuleAvoidance(key)) = Hex::<PublicKeyOrphanRuleAvoidance>::from_str(&text)
        .expect("a key");
    assert_eq!(key.to_vec()[0], 0xf0);
    assert_eq!(key.to_vec()[1], 0x0f);
}

#[test]
fn refuses_what_is_not_hexadecimal() {
    assert_eq!(
        Hex::<PublicKeyOrphanRuleAvoidance>::from_str("abc").map(|_| ()),
        Err(ParseHexError::InvalidHex { source: HexError::OddLength })
    );
    assert_eq!(
        Hex::<PublicKeyOrphanRuleAvoidance>::from_str("00gg").map(|_| ()),
        Err(ParseHexError::InvalidHex {
            source: HexError::InvalidHexCharacter { c: 'g', index: 2 }
        })
    );
    assert_eq!(
        Hex::<PublicKeyOrphanRuleAvoidance>::from_str("0é").map(|_| ()),
        Err(ParseHexError::InvalidHex { source: HexError::OddLength })
    );
    // A bad character is reported as the byte that stands at its place.
    assert_eq!(
        Hex::<PublicKeyOrphanRuleAvoidance>::from_str("00é").map(|_| ()),
        Err(ParseHexError::InvalidHex {
            source: HexError::InvalidHexCharacter { c: '\u{c3}', index: 2 }
        })
    );
    assert_eq!(
        Hex::<PublicKeyOrphanRuleAvoidance>::from_str("0g0h").map(|_| ()),
        Err(ParseHexError::InvalidHex {
            source: HexError::InvalidHexCharacter { c: 'g', index: 1 }
        })
    );
}

#[test]
fn refuses_bytes_that_make_no_key() {
    assert_eq!(
        Hex::<PublicKeyOrphanRuleAvoidance>::from_str("00ff").map(|_| ()),
        Err(ParseHexError::InvalidItem { source: SignatureFault::InvalidPublicKey })
    );
    assert_eq!(
        Hex::<PublicKeyOrphanRuleAvoidance>::from_str("").map(|_| ()),
        Err(ParseHexError::InvalidItem { source: SignatureFault::InvalidPublicKey })
    );
    assert_eq!(
        Hex::<PublicKeyOrphanRuleAvoidance>::from_str(&"ab".repeat(33)).map(|_| ()),
        Err(ParseHexError::InvalidItem { source: SignatureFault::InvalidPublicKey })
    );
}

#[test]
fn makes_a_key_of_thirty_two_bytes() {
    assert!(PublicKeyOrphanRuleAvoidance::try_from(vec![3u8; 32]).is_ok());
    assert_eq!(
        PublicKeyOrphanRuleAvoidance::try_from(vec![3u8; 16]).map(|_| ()),
        Err(SignatureFault::InvalidPublicKey)
    );
}
