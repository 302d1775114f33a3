use discord_bot::hex_text::HexError;
use discord_bot::verification::{
    authenticated_body, verify, verify_request, PublicKey, Signature, SignatureFault,
    VerificationError,
};
use ed25519_compact::{KeyPair, Seed};

const TIMESTAMP: &[u8] = b"1700000000";

fn key_pair(fill: u8) -> KeyPair {
    KeyPair::from_seed(Seed::new([fill; 32]))
}

fn public_key(key_pair: &KeyPair) -> PublicKey {
    PublicKey::from_slice(&key_pair.pk[..]).expect("32 bytes")
}

fn sign(key_pair: &KeyPair, timestamp: &[u8], body: &[u8]) -> Signature {
    let message = [timestamp, body].concat();
    Signature::from_slice(&key_pair.sk.sign(message, None)[..]).expect("64 bytes")
}

fn sign_hex(key_pair: &KeyPair, timestamp: &[u8], body: &[u8]) -> String {
    let message = [timestamp, body].concat();
    hex::encode(&key_pair.sk.sign(message, None)[..])
}

#[test]
fn genuine_signatures_verify() {
    let key_pair = key_pair(7);
    let public_key = public_key(&key_pair);
    let cases: [(&[u8], &[u8]); 5] = [
        (b"{\"type\":1}", b"1700000000"),
        (b"", b"1700000000"),
        (b"{}", b""),
        (b"", b""),
        (&[0, 255, 10, 13, 128], &[0, 1, 2]),
    ];
    for (body, timestamp) in cases {
        let signature = sign(&key_pair, timestamp, body);
        assert_eq!(verify(body, timestamp, &signature, &public_key), Ok(()));
    }
}

#[test]
fn signature_over_another_body_or_timestamp_fails() {
    let key_pair = key_pair(7);
    let public_key = public_key(&key_pair);
    let signature = sign(&key_pair, b"1700000000", b"{\"type\":1}");
    assert_eq!(
        verify(b"{\"type\":2}", b"1700000000", &signature, &public_key),
        Err(VerificationError::Unverified { source: SignatureFault::SignatureMismatch })
    );
    assert_eq!(
        verify(b"{\"type\":1}", b"1700000001", &signature, &public_key),
        Err(VerificationError::Unverified { source: SignatureFault::SignatureMismatch })
    );
    // Body and timestamp do not change places.
    assert!(verify(b"1700000000", b"{\"type\":1}", &signature, &public_key).is_err());
}

#[test]
fn signature_under_another_key_fails() {
    let signer = key_pair(7);
    let other = key_pair(8);
    let signature = sign(&signer, b"1700000000", b"{\"type\":1}");
    assert!(verify(b"{\"type\":1}", b"1700000000", &signature, &public_key(&other)).is_err());
    assert_eq!(
        verify(b"{\"type\":1}", b"1700000000", &signature, &public_key(&signer)),
        Ok(())
    );
}

#[test]
fn mutating_any_single_byte_invalidates() {
    let key_pair = key_pair(9);
    let public_key = public_key(&key_pair);
    let body = b"{\"type\":2,\"data\":{\"name\":\"new-release\"}}".to_vec();
    let timestamp = b"1700000000".to_vec();
    let signature = sign(&key_pair, &timestamp, &body);
    assert_eq!(verify(&body, &timestamp, &signature, &public_key), Ok(()));
    for at in 0..body.len() {
        let mut tampered = body.clone();
        tampered[at] ^= 1;
        assert!(verify(&tampered, &timestamp, &signature, &public_key).is_err(), "body byte {at}");
    }
    for at in 0..timestamp.len() {
        let mut tampered = timestamp.clone();
        tampered[at] ^= 0x80;
        assert!(verify(&body, &tampered, &signature, &public_key).is_err(), "timestamp byte {at}");
    }
}

#[test]
fn the_line_between_timestamp_and_body_is_not_signed() {
    let key_pair = key_pair(7);
    let public_key = public_key(&key_pair);
    let signature = sign(&key_pair, b"12", b"3");
    assert_eq!(verify(b"23", b"1", &signature, &public_key), Ok(()));
    assert_eq!(verify(b"", b"123", &signature, &public_key), Ok(()));
    assert!(verify(b"3", b"21", &signature, &public_key).is_err());
}

#[test]
fn request_with_hexadecimal_signature_passes() {
    let key_pair = key_pair(7);
    let public_key = public_key(&key_pair);
    let header = sign_hex(&key_pair, b"1700000000", b"{\"type\":1}");
    assert_eq!(
        verify_request(b"{\"type\":1}", Some(TIMESTAMP), Some(header.as_bytes()), &public_key),
        Ok(())
    );
    let upper = header.to_uppercase();
    assert_eq!(
        verify_request(b"{\"type\":1}", Some(TIMESTAMP), Some(upper.as_bytes()), &public_key),
        Ok(())
    );
}

#[test]
fn each_failure_names_the_check_that_failed() {
    let key_pair = key_pair(7);
    let public_key = public_key(&key_pair);
    let body = b"{\"type\":1}";
    let timestamp: Option<&[u8]> = Some(TIMESTAMP);
    assert_eq!(
        verify_request(body, timestamp, None, &public_key),
        Err(VerificationError::SignatureMissing)
    );
    assert_eq!(
        verify_request(body, None, None, &public_key),
        Err(VerificationError::SignatureMissing)
    );
    let good = sign_hex(&key_pair, b"1700000000", body);
    assert_eq!(
        verify_request(body, None, Some(good.as_bytes()), &public_key),
        Err(VerificationError::TimestampMissing)
    );
    assert_eq!(
        verify_request(body, None, Some(b"00ff"), &public_key),
        Err(VerificationError::SignatureInvalidKey { source: SignatureFault::InvalidSignature })
    );
    assert_eq!(verify_request(body, timestamp, Some(good.as_bytes()), &public_key), Ok(()));
    assert_eq!(
        verify_request(body, timestamp, Some(b"abc"), &public_key),
        Err(VerificationError::SignatureInvalidHex { source: HexError::OddLength })
    );
    assert_eq!(
        verify_request(body, timestamp, Some(b"0az1"), &public_key),
        Err(VerificationError::SignatureInvalidHex {
            source: HexError::InvalidHexCharacter { c: 'z', index: 2 }
        })
    );
    // An odd length is found before a bad character.
    assert_eq!(
        verify_request(body, timestamp, Some(b"zzz"), &public_key),
        Err(VerificationError::SignatureInvalidHex { source: HexError::OddLength })
    );
    assert_eq!(
        verify_request(body, timestamp, Some(b"00ff"), &public_key),
        Err(VerificationError::SignatureInvalidKey { source: SignatureFault::InvalidSignature })
    );
    assert_eq!(
        verify_request(body, timestamp, Some(b""), &public_key),
        Err(VerificationError::SignatureInvalidKey { source: SignatureFault::InvalidSignature })
    );
    let header = sign_hex(&key_pair, b"1700000000", b"{\"type\":2}");
    assert_eq!(
        verify_request(body, timestamp, Some(header.as_bytes()), &public_key),
        Err(VerificationError::Unverified { source: SignatureFault::SignatureMismatch })
    );
}

#[test]
fn all_failures_are_answered_alike() {
    let errors = [
        VerificationError::SignatureMissing,
        VerificationError::SignatureInvalidHex { source: HexError::OddLength },
        VerificationError::SignatureInvalidKey { source: SignatureFault::InvalidSignature },
        VerificationError::TimestampMissing,
        VerificationError::Unverified { source: SignatureFault::SignatureMismatch },
    ];
    for error in errors {
        assert_eq!(error.status_code(), 403);
        assert_eq!(error.response_body(), "unauthenticated");
    }
    assert_eq!(
        VerificationError::SignatureMissing.message(),
        "the request carries no signature"
    );
    assert_eq!(
        VerificationError::SignatureInvalidHex { source: HexError::OddLength }.message(),
        "the given signature is not represented in hex"
    );
}

#[test]
fn keys_and_signatures_have_their_lengths() {
    assert!(PublicKey::from_slice(&[1u8; 32]).is_ok());
    assert_eq!(PublicKey::from_slice(&[1u8; 31]), Err(SignatureFault::InvalidPublicKey));
    assert_eq!(PublicKey::from_slice(&[1u8; 33]), Err(SignatureFault::InvalidPublicKey));
    assert_eq!(PublicKey::from_slice(&[]), Err(SignatureFault::InvalidPublicKey));
    let bytes: Vec<u8> = (0..32).collect();
    assert_eq!(PublicKey::from_slice(&bytes).unwrap().to_vec(), bytes);
    assert!(Signature::from_slice(&[1u8; 64]).is_ok());
    assert_eq!(Signature::from_slice(&[1u8; 63]), Err(SignatureFault::InvalidSignature));
    assert_eq!(Signature::from_slice(&[1u8; 65]), Err(SignatureFault::InvalidSignature));
}

#[test]
fn tampered_body_is_rejected_before_any_parsing() {
    let key_pair = key_pair(7);
    let public_key = public_key(&key_pair);
    let timestamp = TIMESTAMP;
    let header = sign_hex(&key_pair, timestamp, b"{\"type\":2,\"data\":{\"name\":\"new-release\"}}");
    let tampered = b"{\"type\":2,\"data\":{\"name\":\"new-releasf\"}}";

    let mut parsed = 0;
    let mut handled = 0;
    let mut receive = |body: &[u8]| -> Result<(), VerificationError> {
        let verified =
            authenticated_body(body, Some(timestamp), Some(header.as_bytes()), &public_key)?;
        parsed += 1;
        if !verified.is_empty() {
            handled += 1;
        }
        Ok(())
    };

    assert_eq!(
        receive(tampered),
        Err(VerificationError::Unverified { source: SignatureFault::SignatureMismatch })
    );
    assert_eq!((parsed, handled), (0, 0));
}

#[test]
fn authenticated_body_is_the_body_that_came() {
    let key_pair = key_pair(7);
    let public_key = public_key(&key_pair);
    let body = b"{\"type\":1}";
    let header = sign_hex(&key_pair, b"1700000000", body);
    assert_eq!(
        authenticated_body(body, Some(TIMESTAMP), Some(header.as_bytes()), &public_key),
        Ok(&body[..])
    );
}

#[test]
fn the_signature_scheme_says_what_is_wrong() {
    let key_pair = key_pair(7);
    let public_key = public_key(&key_pair);
    let body = b"{\"type\":1}";
    let out_of_range = Signature::from_slice(&[0xff; 64]).unwrap();
    assert_eq!(
        verify(body, TIMESTAMP, &out_of_range, &public_key),
        Err(VerificationError::Unverified { source: SignatureFault::NonCanonical })
    );
    let mut neutral = [0u8; 32];
    neutral[0] = 1;
    let weak = PublicKey::from_slice(&neutral).unwrap();
    let signature = sign(&key_pair, TIMESTAMP, body);
    assert_eq!(
        verify(body, TIMESTAMP, &signature, &weak),
        Err(VerificationError::Unverified { source: SignatureFault::WeakPublicKey })
    );
}
