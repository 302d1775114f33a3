//! Request authentication: an inbound request counts only if its signature
//! verifies, under the configured public key, over the timestamp followed at
//! once by the raw body.

use crate::hex_text::decode;
use crate::hex_text::hex_decoded;
use crate::hex_text::HexError;
use vstd::prelude::*;
use vstd::slice::slice_to_vec;
use vstd::string::StringExecFns;

verus! {

/// What the signature scheme found wrong, for diagnostics.
#[derive(Debug, Clone, Copy, PartialEq, Eq, Structural)]
pub enum SignatureFault {
    /// The signature does not verify.
    SignatureMismatch,
    /// A weak public key was used.
    WeakPublicKey,
    /// The public key is invalid.
    InvalidPublicKey,
    /// The secret key is invalid.
    InvalidSecretKey,
    /// The signature is invalid.
    InvalidSignature,
    /// The seed is invalid.
    InvalidSeed,
    /// The blind is invalid.
    InvalidBlind,
    /// The noise is invalid.
    InvalidNoise,
    /// Something could not be parsed.
    ParseError,
    /// An encoding is not canonical.
    NonCanonical,
}

/// What Ed25519 verification makes of `signature` as a signature of
/// `message` under `public_key`: it accepts it, or says what is wrong.
pub uninterp spec fn ed25519_verified(
    public_key: Seq<u8>,
    message: Seq<u8>,
    signature: Seq<u8>,
) -> Result<(), SignatureFault>;

/// `ed25519_compact::PublicKey::verify`, on a key and a signature taken from
/// their raw bytes: what comes of it depends on the three byte strings alone.
#[verifier::external_body]
fn ed25519_verify(public_key: &[u8; 32], message: &[u8], signature: &[u8; 64]) -> (outcome: Result<
    (),
    SignatureFault,
>)
    ensures
        outcome == ed25519_verified(public_key@, message@, signature@),
{
    let signature = ed25519_compact::Signature::new(*signature);
    ed25519_compact::PublicKey::new(*public_key).verify(message, &signature).map_err(
        |error| match error {
            ed25519_compact::Error::SignatureMismatch => SignatureFault::SignatureMismatch,
            ed25519_compact::Error::WeakPublicKey => SignatureFault::WeakPublicKey,
            ed25519_compact::Error::InvalidPublicKey => SignatureFault::InvalidPublicKey,
            ed25519_compact::Error::InvalidSecretKey => SignatureFault::InvalidSecretKey,
            ed25519_compact::Error::InvalidSignature => SignatureFault::InvalidSignature,
            ed25519_compact::Error::InvalidSeed => SignatureFault::InvalidSeed,
            ed25519_compact::Error::InvalidBlind => SignatureFault::InvalidBlind,
            ed25519_compact::Error::InvalidNoise => SignatureFault::InvalidNoise,
            ed25519_compact::Error::ParseError => SignatureFault::ParseError,
            ed25519_compact::Error::NonCanonical => SignatureFault::NonCanonical,
        },
    )
}

/// Whether Ed25519 verification accepts `signature` as a signature of
/// `message` under `public_key`.
pub open spec fn ed25519_accepts(public_key: Seq<u8>, message: Seq<u8>, signature: Seq<u8>) -> bool {
    ed25519_verified(public_key, message, signature) is Ok
}

/// `ed25519_compact::PublicKey::from_slice`: a public key is made of exactly
/// 32 bytes, which it keeps as they are; nothing else is checked.
#[verifier::external_body]
fn public_key_from_slice(bytes: &[u8]) -> (key: Option<[u8; 32]>)
    ensures
        key is Some <==> bytes@.len() == 32,
        key matches Some(key) ==> key@ == bytes@,
{
    ed25519_compact::PublicKey::from_slice(bytes).ok().map(|key| *key)
}

/// `ed25519_compact::Signature::from_slice`: a signature is made of exactly
/// 64 bytes, which it keeps as they are; nothing else is checked.
#[verifier::external_body]
fn signature_from_slice(bytes: &[u8]) -> (signature: Option<[u8; 64]>)
    ensures
        signature is Some <==> bytes@.len() == 64,
        signature matches Some(signature) ==> signature@ == bytes@,
{
    ed25519_compact::Signature::from_slice(bytes).ok().map(|signature| *signature)
}

/// The public key that inbound requests are verified against.
#[derive(Debug, Clone, Copy, PartialEq, Eq)]
pub struct PublicKey {
    bytes: [u8; 32],
}

impl View for PublicKey {
    type V = Seq<u8>;

    closed spec fn view(&self) -> Seq<u8> {
        self.bytes@
    }
}

impl PublicKey {
    /// The key made of the given bytes, which must be exactly 32.
    pub fn from_slice(bytes: &[u8]) -> (outcome: Result<PublicKey, SignatureFault>)
        ensures
            outcome is Ok <==> bytes@.len() == 32,
            outcome matches Ok(key) ==> key@ == bytes@,
            outcome matches Err(fault) ==> fault == SignatureFault::InvalidPublicKey,
    {
        match public_key_from_slice(bytes) {
            Some(bytes) => Ok(PublicKey { bytes }),
            None => Err(SignatureFault::InvalidPublicKey),
        }
    }

    /// The key's 32 bytes.
    pub fn to_vec(&self) -> (bytes: Vec<u8>)
        ensures
            bytes@ == self@,
    {
        slice_to_vec(self.bytes.as_slice())
    }
}

/// A signature as it came with a request.
#[derive(Debug, Clone, Copy, PartialEq, Eq)]
pub struct Signature {
    bytes: [u8; 64],
}

impl View for Signature {
    type V = Seq<u8>;

    closed spec fn view(&self) -> Seq<u8> {
        self.bytes@
    }
}

impl Signature {
    /// The signature made of the given bytes, which must be exactly 64.
    pub fn from_slice(bytes: &[u8]) -> (outcome: Result<Signature, SignatureFault>)
        ensures
            outcome is Ok <==> bytes@.len() == 64,
            outcome matches Ok(signature) ==> signature@ == bytes@,
            outcome matches Err(fault) ==> fault == SignatureFault::InvalidSignature,
    {
        match signature_from_slice(bytes) {
            Some(bytes) => Ok(Signature { bytes }),
            None => Err(SignatureFault::InvalidSignature),
        }
    }
}

/// Why a request is not authenticated. Callers answer all of these alike;
/// the distinction serves diagnostics.
#[derive(Debug, Clone, Copy, PartialEq, Eq)]
pub enum VerificationError {
    /// The request carries no signature.
    SignatureMissing,
    /// The signature is not hexadecimal text.
    SignatureInvalidHex { source: HexError },
    /// The signature does not have the length of an Ed25519 signature.
    SignatureInvalidKey { source: SignatureFault },
    /// The request carries no timestamp.
    TimestampMissing,
    /// The signature does not belong to this message and key.
    Unverified { source: SignatureFault },
}

/// The message that a signature binds: the timestamp, then the body, with
/// nothing between them.
pub open spec fn signed_message(timestamp: Seq<u8>, body: Seq<u8>) -> Seq<u8> {
    timestamp + body
}

/// The bytes of `timestamp` followed by those of `body`.
pub fn concat(timestamp: &[u8], body: &[u8]) -> (message: Vec<u8>)
    ensures
        message@ == signed_message(timestamp@, body@),
{
    let mut message: Vec<u8> = slice_to_vec(timestamp);
    let mut i: usize = 0;
    while i < body.len()
        invariant
            i <= body@.len(),
            message@ == timestamp@ + body@.take(i as int),
        decreases body@.len() - i,
    {
        message.push(body[i]);
        assert(body@.take(i + 1) == body@.take(i as int).push(body@[i as int]));
        i += 1;
    }
    assert(body@.take(i as int) == body@);
    message
}

/// What verifying a request's signature comes to: the verdict of the
/// signature scheme on the timestamp followed by the body.
pub open spec fn verified(
    body: Seq<u8>,
    timestamp: Seq<u8>,
    signature: Seq<u8>,
    public_key: Seq<u8>,
) -> Result<(), VerificationError> {
    match ed25519_verified(public_key, signed_message(timestamp, body), signature) {
        Ok(()) => Ok(()),
        Err(fault) => Err(VerificationError::Unverified { source: fault }),
    }
}

/// Verifies that `signature` was made over the timestamp followed by the
/// body, by the private key that belongs to `public_key`.
pub fn verify(body: &[u8], timestamp: &[u8], signature: &Signature, public_key: &PublicKey) -> (outcome:
    Result<(), VerificationError>)
    ensures
        outcome == verified(body@, timestamp@, signature@, public_key@),
        outcome is Ok <==> ed25519_accepts(
            public_key@,
            signed_message(timestamp@, body@),
            signature@,
        ),
{
    let message = concat(timestamp, body);
    match ed25519_verify(&public_key.bytes, message.as_slice(), &signature.bytes) {
        Ok(()) => Ok(()),
        Err(source) => Err(VerificationError::Unverified { source }),
    }
}

/// A request is authenticated if its signature header is hexadecimal text
/// for 64 bytes that verify as a signature over the timestamp followed by the
/// body.
pub open spec fn authenticated(
    body: Seq<u8>,
    timestamp_header: Option<Seq<u8>>,
    signature_header: Option<Seq<u8>>,
    public_key: Seq<u8>,
) -> bool {
    request_verified(body, timestamp_header, signature_header, public_key) is Ok
}

/// What authenticating a request comes to: `Ok`, or the first check that
/// failed. The signature header must be there, must read as hexadecimal text
/// and must then have 64 bytes; the timestamp header must be there; and the
/// signature must verify over the timestamp followed by the body.
pub open spec fn request_verified(
    body: Seq<u8>,
    timestamp_header: Option<Seq<u8>>,
    signature_header: Option<Seq<u8>>,
    public_key: Seq<u8>,
) -> Result<(), VerificationError> {
    match signature_header {
        None => Err(VerificationError::SignatureMissing),
        Some(text) => match hex_decoded(text) {
            Err(fault) => Err(VerificationError::SignatureInvalidHex { source: fault }),
            Ok(signature) => if signature.len() != 64 {
                Err(
                    VerificationError::SignatureInvalidKey {
                        source: SignatureFault::InvalidSignature,
                    },
                )
            } else {
                match timestamp_header {
                    None => Err(VerificationError::TimestampMissing),
                    Some(timestamp) => verified(body, timestamp, signature, public_key),
                }
            },
        },
    }
}

/// An optional byte string as an optional sequence of bytes.
pub open spec fn header_view(header: Option<&[u8]>) -> Option<Seq<u8>> {
    match header {
        Some(text) => Some(text@),
        None => None,
    }
}

/// Authenticates a request from its raw parts, before anything reads the
/// body.
pub fn verify_request(
    body: &[u8],
    timestamp_header: Option<&[u8]>,
    signature_header: Option<&[u8]>,
    public_key: &PublicKey,
) -> (outcome: Result<(), VerificationError>)
    ensures
        outcome == request_verified(
            body@,
            header_view(timestamp_header),
            header_view(signature_header),
            public_key@,
        ),
{
    let text = match signature_header {
        Some(text) => text,
        None => {
            return Err(VerificationError::SignatureMissing);
        },
    };
    let signature = match decode(text) {
        Ok(signature) => signature,
        Err(source) => {
            return Err(VerificationError::SignatureInvalidHex { source });
        },
    };
    let signature = match Signature::from_slice(signature.as_slice()) {
        Ok(signature) => signature,
        Err(source) => {
            return Err(VerificationError::SignatureInvalidKey { source });
        },
    };
    let timestamp = match timestamp_header {
        Some(timestamp) => timestamp,
        None => {
            return Err(VerificationError::TimestampMissing);
        },
    };
    verify(body, timestamp, &signature, public_key)
}

/// Hands out the body of a request only if the request is authenticated, so
/// that nothing reads an unverified body as structured data.
pub fn authenticated_body<'a>(
    body: &'a [u8],
    timestamp_header: Option<&[u8]>,
    signature_header: Option<&[u8]>,
    public_key: &PublicKey,
) -> (outcome: Result<&'a [u8], VerificationError>)
    ensures
        match request_verified(
            body@,
            header_view(timestamp_header),
            header_view(signature_header),
            public_key@,
        ) {
            Ok(()) => outcome matches Ok(verified) && verified@ == body@,
            Err(error) => outcome == Err::<&[u8], VerificationError>(error),
        },
{
    match verify_request(body, timestamp_header, signature_header, public_key) {
        Ok(()) => Ok(body),
        Err(error) => Err(error),
    }
}

/// The name of the header that carries a request's signature, in
/// hexadecimal.
pub const X_SIGNATURE_ED25519: &'static str = "x-signature-ed25519";

/// The name of the header that carries a request's timestamp.
pub const X_SIGNATURE_TIMESTAMP: &'static str = "x-signature-timestamp";

impl VerificationError {
    /// The status that answers an unauthenticated request, whatever was
    /// wrong with it.
    pub fn status_code(&self) -> (status: u16)
        ensures
            status == 403,
    {
        403
    }

    /// What an unauthenticated request is told, whatever was wrong with it.
    pub open spec fn response_body_spec() -> Seq<char> {
        "unauthenticated"@
    }

    /// What an unauthenticated request is told, whatever was wrong with it.
    pub fn response_body(&self) -> (text: String)
        ensures
            text@ == Self::response_body_spec(),
    {
        String::from_str("unauthenticated")
    }

    /// What was wrong with the request, for the operator's eyes.
    pub open spec fn message_spec(&self) -> Seq<char> {
        match self {
            VerificationError::SignatureMissing => "the request carries no signature"@,
            VerificationError::SignatureInvalidHex { .. } => {
                "the given signature is not represented in hex"@
            },
            VerificationError::SignatureInvalidKey { .. } => {
                "the given signature does not represent a valid ED25519 compact signature"@
            },
            VerificationError::TimestampMissing => "the request carries no timestamp"@,
            VerificationError::Unverified { .. } => {
                "all the needed information was provided, but this message was not signed with the private key corresponding to this public key, so something suspicious may be going on"@
            },
        }
    }

    /// What was wrong with the request, for the operator's eyes.
    pub fn message(&self) -> (text: String)
        ensures
            text@ == self.message_spec(),
    {
        match self {
            VerificationError::SignatureMissing => String::from_str(
                "the request carries no signature",
            ),
            VerificationError::SignatureInvalidHex { .. } => String::from_str(
                "the given signature is not represented in hex",
            ),
            VerificationError::SignatureInvalidKey { .. } => String::from_str(
                "the given signature does not represent a valid ED25519 compact signature",
            ),
            VerificationError::TimestampMissing => String::from_str(
                "the request carries no timestamp",
            ),
            VerificationError::Unverified { .. } => String::from_str(
                "all the needed information was provided, but this message was not signed with the private key corresponding to this public key, so something suspicious may be going on",
            ),
        }
    }
}

/// The line between timestamp and body is not part of what a signature
/// binds: two requests whose timestamp and body run together to the same
/// bytes are accepted or refused alike.
pub proof fn law_signature_binds_the_joined_message(
    body: Seq<u8>,
    timestamp: Seq<u8>,
    other_body: Seq<u8>,
    other_timestamp: Seq<u8>,
    signature_header: Option<Seq<u8>>,
    public_key: Seq<u8>,
)
    requires
        timestamp + body == other_timestamp + other_body,
    ensures
        authenticated(body, Some(timestamp), signature_header, public_key) == authenticated(
            other_body,
            Some(other_timestamp),
            signature_header,
            public_key,
        ),
{
}

} // verus!
