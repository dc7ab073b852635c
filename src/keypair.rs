use vstd::prelude::*;
use crate::encoding::{
    certificate_body_len, certificate_message, decimal_digits, number_to_string_bytes, utf8,
    CERTIFICATE_MESSAGE_PREFIX,
};
use crate::key_util::{hex_decodable, hex_decode, hex_decoded};
use crate::service_error::Error;
use crate::signature::{
    bytes_option, keccak256_digest, keccak256_of, normalized_recovery_id, random_keypair,
    recover_public_key, recovery_id, secp256k1_public_key, secp256k1_recovered, secp256k1_signed,
    sign_prehash, signature_rs,
};
use k256::ecdsa::VerifyingKey;

verus! {

/// The failures of key handling and signing.
#[derive(Debug, Clone, Copy, PartialEq, Eq, Structural)]
pub enum Secp256k1Error {
    InvalidSignature,
    InvalidSignatureFormat,
    MissingSecretKey,
    InvalidPublicKey,
    InvalidSecretKey,
    InvalidRecoveryId,
    InvalidMessage,
    InvalidInputLength,
    TweakOutOfRange,
    SigningFailed,
    InvalidAffine,
}

/// A personal message as signed: the certificate message prefix, the decimal byte
/// length, then the message bytes.
pub open spec fn personal_message(message: Seq<u8>) -> Seq<u8> {
    utf8(CERTIFICATE_MESSAGE_PREFIX@) + decimal_digits(message.len()) + message
}

/// Signing a certificate's body as a personal message signs exactly the canonical
/// certificate message: the body is course id, recipient, metadata URI and decimal
/// date, and its length is the one the certificate message declares.
pub proof fn lemma_personal_message_is_certificate_message(
    recipient: Seq<char>,
    course_id: Seq<char>,
    metadata_uri: Seq<char>,
    issued_date: u64,
)
    ensures
        personal_message(
            utf8(course_id) + utf8(recipient) + utf8(metadata_uri) + decimal_digits(
                issued_date as nat,
            ),
        ) == certificate_message(recipient, course_id, metadata_uri, issued_date),
{
    let body = utf8(course_id) + utf8(recipient) + utf8(metadata_uri) + decimal_digits(
        issued_date as nat,
    );
    assert(body.len() == certificate_body_len(recipient, course_id, metadata_uri, issued_date));
    assert(personal_message(body) =~= certificate_message(
        recipient,
        course_id,
        metadata_uri,
        issued_date,
    ));
}

/// A hexadecimal text without a leading `0x`, where it has one.
pub open spec fn strip_hex_prefix(text: Seq<u8>) -> Seq<u8> {
    if text.len() >= 2 && text[0] == 48 && text[1] == 120 {
        text.subrange(2, text.len() as int)
    } else {
        text
    }
}

/// Relies on k256's `VerifyingKey::from_sec1_bytes` (re-encoded uncompressed with
/// `to_encoded_point(false)`): `None` where the bytes are no valid point.
#[verifier::external_body]
fn sec1_public_key(bytes: &[u8]) -> (r: Option<[u8; 65]>)
    ensures
        bytes_option(r) == sec1_decoded(bytes@),
{
    let key = VerifyingKey::from_sec1_bytes(bytes).ok()?;
    let mut out = [0u8; 65];
    out.copy_from_slice(key.to_encoded_point(false).as_bytes());
    Some(out)
}

/// The uncompressed public key that SEC1 bytes (compressed or not) stand for, or `None`
/// where they are no point of secp256k1.
pub uninterp spec fn sec1_decoded(bytes: Seq<u8>) -> Option<Seq<u8>>;

/// Builds a personal message: prefix, decimal byte length, then the message bytes.
pub fn personal_message_bytes(message: &[u8]) -> (r: Vec<u8>)
    ensures
        r@ == personal_message(message@),
{
    let mut out = CERTIFICATE_MESSAGE_PREFIX.as_bytes_vec();
    let mut len_bytes = number_to_string_bytes(message.len() as u64);
    out.append(&mut len_bytes);
    let mut i: usize = 0;
    let ghost head = out@;
    while i < message.len()
        invariant
            i <= message@.len(),
            out@ == head + message@.subrange(0, i as int),
        decreases message@.len() - i,
    {
        out.push(message[i]);
        assert(message@.subrange(0, i + 1) =~= message@.subrange(0, i as int).push(
            message@[i as int],
        ));
        i = i + 1;
    }
    assert(message@.subrange(0, i as int) =~= message@);
    out
}

/// An ECDSA keypair on secp256k1: the uncompressed public key, and the secret key where
/// it is held.
pub struct Secp256k1KeyPair {
    pub public_key: [u8; 65],
    pub secret_key: Option<[u8; 32]>,
}

/// What signing `message` with an optional secret key gives.
pub open spec fn signing_outcome(secret_key: Option<[u8; 32]>, message: Seq<u8>) -> Result<
    Seq<u8>,
    Secp256k1Error,
> {
    match secret_key {
        None => Err(Secp256k1Error::MissingSecretKey),
        Some(sk) => match secp256k1_signed(sk@, keccak256_of(message)) {
            Some(sig) => Ok(sig),
            None => Err(Secp256k1Error::SigningFailed),
        },
    }
}

/// Whether a signing result matches its expected outcome.
pub open spec fn signed_as(r: Result<Vec<u8>, Error>, expected: Result<Seq<u8>, Secp256k1Error>) -> bool {
    match expected {
        Ok(sig) => r is Ok && r->Ok_0@ == sig,
        Err(e) => r is Err && r->Err_0 == Error::CryptoError(e),
    }
}

/// What recovering a key from a personal-message signature gives.
pub open spec fn recovery_outcome(sig: Seq<u8>, message: Seq<u8>) -> Result<
    Seq<u8>,
    Secp256k1Error,
> {
    if sig.len() != 65 {
        Err(Secp256k1Error::InvalidSignatureFormat)
    } else {
        match normalized_recovery_id(sig[64]) {
            None => Err(Secp256k1Error::InvalidRecoveryId),
            Some(id) => match secp256k1_recovered(
                keccak256_of(personal_message(message)),
                sig.subrange(0, 64),
                id,
            ) {
                Some(key) => Ok(key),
                None => Err(Secp256k1Error::InvalidSignature),
            },
        }
    }
}

impl Secp256k1KeyPair {
    /// A held secret key belongs to the public key.
    pub open spec fn wf(&self) -> bool {
        self.secret_key matches Some(sk) ==> secp256k1_public_key(sk@) == Some(self.public_key@)
    }

    /// A fresh random keypair.
    pub fn generate() -> (r: Self)
        ensures
            r.wf(),
            r.secret_key is Some,
            secp256k1_public_key(r.secret_key->Some_0@) == Some(r.public_key@),
    {
        let (secret, public) = random_keypair();
        Secp256k1KeyPair { public_key: public, secret_key: Some(secret) }
    }

    /// A public key (without secret) from its SEC1 encoding in hexadecimal, with or
    /// without a leading `0x`.
    pub fn from_pubkey_hex(pubkey_hex: &str) -> (r: Result<Self, Error>)
        ensures
            ({
                let text = strip_hex_prefix(utf8(pubkey_hex@));
                match r {
                    Ok(kp) => kp.wf() && hex_decodable(text) && sec1_decoded(hex_decoded(text)) == Some(
                        kp.public_key@,
                    ) && kp.secret_key is None,
                    Err(Error::HexError(_)) => !hex_decodable(text),
                    Err(e) => e == Error::CryptoError(Secp256k1Error::InvalidPublicKey)
                        && hex_decodable(text) && sec1_decoded(hex_decoded(text)) is None,
                }
            }),
    {
        let bytes = pubkey_hex.as_bytes();
        let mut clean: Vec<u8> = Vec::new();
        let start: usize = if bytes.len() >= 2 && bytes[0] == 48 && bytes[1] == 120 {
            2
        } else {
            0
        };
        let mut i: usize = start;
        while i < bytes.len()
            invariant
                start <= i <= bytes@.len(),
                clean@ == bytes@.subrange(start as int, i as int),
            decreases bytes@.len() - i,
        {
            clean.push(bytes[i]);
            assert(bytes@.subrange(start as int, i + 1) =~= bytes@.subrange(
                start as int,
                i as int,
            ).push(bytes@[i as int]));
            i = i + 1;
        }
        assert(clean@ =~= strip_hex_prefix(utf8(pubkey_hex@)));
        let decoded = match hex_decode(clean.as_slice()) {
            Err(e) => return Err(Error::HexError(e)),
            Ok(d) => d,
        };
        match sec1_public_key(decoded.as_slice()) {
            None => Err(Error::CryptoError(Secp256k1Error::InvalidPublicKey)),
            Some(public_key) => Ok(Secp256k1KeyPair { public_key, secret_key: None }),
        }
    }

    fn sign_bytes(&self, message: &[u8]) -> (r: Result<Vec<u8>, Error>)
        ensures
            signed_as(r, signing_outcome(self.secret_key, message@)),
            r is Ok ==> r->Ok_0@.len() == 65,
    {
        let digest = keccak256_digest(message);
        let secret = match &self.secret_key {
            None => return Err(Error::CryptoError(Secp256k1Error::MissingSecretKey)),
            Some(s) => s,
        };
        match sign_prehash(secret, &digest) {
            None => Err(Error::CryptoError(Secp256k1Error::SigningFailed)),
            Some(sig) => {
                let mut out: Vec<u8> = Vec::new();
                let mut i: usize = 0;
                while i < 65
                    invariant
                        i <= 65,
                        sig@.len() == 65,
                        out@ == sig@.subrange(0, i as int),
                    decreases 65 - i,
                {
                    out.push(sig[i]);
                    assert(sig@.subrange(0, i + 1) =~= sig@.subrange(0, i as int).push(
                        sig@[i as int],
                    ));
                    i = i + 1;
                }
                assert(sig@.subrange(0, 65) =~= sig@);
                Ok(out)
            },
        }
    }

    /// Signs a personal message (prefix, decimal length, message) over its keccak-256
    /// digest; the result is `r ‖ s ‖ v`.
    pub fn personal_sign(&self, message: &str) -> (r: Result<Vec<u8>, Error>)
        ensures
            signed_as(r, signing_outcome(self.secret_key, personal_message(utf8(message@)))),
            r is Ok ==> r->Ok_0@.len() == 65,
    {
        let bytes = personal_message_bytes(message.as_bytes());
        self.sign_bytes(bytes.as_slice())
    }

    /// Signs the keccak-256 digest of `message`; the result is `r ‖ s ‖ v`.
    pub fn sign_hashed(&self, message: &str) -> (r: Result<Vec<u8>, Error>)
        ensures
            signed_as(r, signing_outcome(self.secret_key, utf8(message@))),
            r is Ok ==> r->Ok_0@.len() == 65,
    {
        self.sign_bytes(message.as_bytes())
    }

    /// Recovers the uncompressed public key that signed a personal message. The
    /// signature is `r ‖ s ‖ v` with `v` in {0, 1, 27, 28}.
    pub fn recover_from_personal_signature(sig: &[u8], message: &str) -> (r: Result<[u8; 65], Error>)
        ensures
            match recovery_outcome(sig@, utf8(message@)) {
                Ok(key) => r is Ok && r->Ok_0@ == key,
                Err(e) => r is Err && r->Err_0 == Error::CryptoError(e),
            },
    {
        if sig.len() != 65 {
            return Err(Error::CryptoError(Secp256k1Error::InvalidSignatureFormat));
        }
        let prefixed = personal_message_bytes(message.as_bytes());
        let digest = keccak256_digest(prefixed.as_slice());
        let id = match recovery_id(sig[64]) {
            None => return Err(Error::CryptoError(Secp256k1Error::InvalidRecoveryId)),
            Some(id) => id,
        };
        let r_s = signature_rs(sig);
        match recover_public_key(&digest, &r_s, id) {
            None => Err(Error::CryptoError(Secp256k1Error::InvalidSignature)),
            Some(key) => Ok(key),
        }
    }
}

} // verus!
