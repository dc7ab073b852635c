use vstd::prelude::*;
use k256::ecdsa::{RecoveryId, Signature, SigningKey, VerifyingKey};
use sha3::{Digest, Keccak256};
use crate::encoding::{build_certificate_message, certificate_fits, certificate_message, message_fits};
use crate::types::CertificateMetadata;

verus! {

/// The keccak-256 digest of `data`.
pub uninterp spec fn keccak256_of(data: Seq<u8>) -> Seq<u8>;

/// The uncompressed (65-byte, SEC1) public key that secp256k1 recovery yields from a
/// digest, a 64-byte `r ‖ s` and a raw recovery id, or `None` where recovery fails.
pub uninterp spec fn secp256k1_recovered(digest: Seq<u8>, rs: Seq<u8>, recovery_id: u8) -> Option<
    Seq<u8>,
>;

/// The 65-byte `r ‖ s ‖ v` recoverable signature (RFC 6979 nonce) that the secret
/// key `secret` gives for `digest`, or `None` where the key or the signing is refused.
pub uninterp spec fn secp256k1_signed(secret: Seq<u8>, digest: Seq<u8>) -> Option<Seq<u8>>;

/// The uncompressed (65-byte, SEC1) public key that k256's `SigningKey::verifying_key`
/// gives for the secret key whose bytes are `secret`, or `None` where `secret` is no
/// valid scalar.
pub uninterp spec fn secp256k1_public_key(secret: Seq<u8>) -> Option<Seq<u8>>;

/// The byte view of an optional 65-byte value.
pub open spec fn bytes_option(o: Option<[u8; 65]>) -> Option<Seq<u8>> {
    match o {
        Some(b) => Some(b@),
        None => None,
    }
}

/// Relies on sha3's `Keccak256` digest of `data`.
#[verifier::external_body]
fn keccak256(data: &[u8]) -> (r: [u8; 32])
    ensures
        r@ == keccak256_of(data@),
{
    Keccak256::digest(data).into()
}

/// Relies on k256's `Signature::from_slice`, `RecoveryId::from_byte` and
/// `VerifyingKey::recover_from_prehash` (uncompressed with `to_encoded_point(false)`):
/// every failure (out-of-range scalars, no point) comes back as `None`.
#[verifier::external_body]
pub(crate) fn recover_public_key(digest: &[u8; 32], rs: &[u8; 64], recovery_id: u8) -> (r: Option<[u8; 65]>)
    ensures
        bytes_option(r) == secp256k1_recovered(digest@, rs@, recovery_id),
{
    let signature = Signature::from_slice(rs).ok()?;
    let id = RecoveryId::from_byte(recovery_id)?;
    let key = VerifyingKey::recover_from_prehash(digest, &signature, id).ok()?;
    let mut out = [0u8; 65];
    out.copy_from_slice(key.to_encoded_point(false).as_bytes());
    Some(out)
}

/// Relies on k256's `SigningKey::from_bytes` and `SigningKey::sign_prehash_recoverable`;
/// the result is `r ‖ s` followed by the recovery id byte.
#[verifier::external_body]
pub(crate) fn sign_prehash(secret: &[u8; 32], digest: &[u8; 32]) -> (r: Option<[u8; 65]>)
    ensures
        bytes_option(r) == secp256k1_signed(secret@, digest@),
{
    let key = SigningKey::from_bytes(&(*secret).into()).ok()?;
    let (signature, id) = key.sign_prehash_recoverable(digest).ok()?;
    let mut out = [0u8; 65];
    out[..64].copy_from_slice(&signature.to_bytes());
    out[64] = id.to_byte();
    Some(out)
}

/// Relies on k256's `SigningKey::random` (operating-system randomness), `to_bytes`, and
/// `verifying_key().to_encoded_point(false)`: a fresh secret key and its uncompressed
/// public key.
#[verifier::external_body]
pub(crate) fn random_keypair() -> (r: ([u8; 32], [u8; 65]))
    ensures
        secp256k1_public_key(r.0@) == Some(r.1@),
{
    let key = SigningKey::random(&mut k256::elliptic_curve::rand_core::OsRng);
    let mut public = [0u8; 65];
    public.copy_from_slice(key.verifying_key().to_encoded_point(false).as_bytes());
    (key.to_bytes().into(), public)
}

/// The raw recovery id (0 or 1) that a signature's last byte stands for: `0`/`1` as
/// they are, `27`/`28` less 27; any other value is malformed.
pub open spec fn normalized_recovery_id(v: u8) -> Option<u8> {
    if v == 0 || v == 1 {
        Some(v)
    } else if v == 27 || v == 28 {
        Some((v - 27) as u8)
    } else {
        None
    }
}

/// Whether `signature` (`r ‖ s ‖ v`) over the keccak-256 digest of `message` recovers
/// exactly to the uncompressed public key `pub_key`.
pub open spec fn signature_valid(pub_key: Seq<u8>, signature: Seq<u8>, message: Seq<u8>) -> bool {
    match normalized_recovery_id(signature[64]) {
        None => false,
        Some(id) => secp256k1_recovered(keccak256_of(message), signature.subrange(0, 64), id)
            == Some(pub_key),
    }
}

/// Normalizes a signature's recovery byte to a raw recovery id.
pub fn recovery_id(v: u8) -> (r: Option<u8>)
    ensures
        r == normalized_recovery_id(v),
{
    match v {
        0 | 1 => Some(v),
        27 | 28 => Some(v - 27),
        _ => None,
    }
}

/// Whether two 65-byte values are equal, byte for byte.
pub fn bytes65_equal(a: &[u8; 65], b: &[u8; 65]) -> (r: bool)
    ensures
        r == (a@ == b@),
{
    let mut i: usize = 0;
    while i < 65
        invariant
            i <= 65,
            a@.len() == 65,
            b@.len() == 65,
            a@.subrange(0, i as int) == b@.subrange(0, i as int),
        decreases 65 - i,
    {
        if a[i] != b[i] {
            assert(a@[i as int] != b@[i as int]);
            return false;
        }
        assert(a@.subrange(0, i + 1) =~= a@.subrange(0, i as int).push(a@[i as int]));
        assert(b@.subrange(0, i + 1) =~= b@.subrange(0, i as int).push(b@[i as int]));
        i = i + 1;
    }
    assert(a@ =~= a@.subrange(0, 65));
    assert(b@ =~= b@.subrange(0, 65));
    true
}

/// Whether the outcome of a key recovery is exactly the expected public key.
pub fn recovered_key_matches(expected: &[u8; 65], recovered: &Option<[u8; 65]>) -> (r: bool)
    ensures
        r == (bytes_option(*recovered) == Some(expected@)),
{
    match recovered {
        Some(key) => bytes65_equal(key, expected),
        None => false,
    }
}

/// The keccak-256 digest of a message.
pub fn keccak256_digest(message: &[u8]) -> (r: [u8; 32])
    ensures
        r@ == keccak256_of(message@),
{
    keccak256(message)
}

/// The `r ‖ s` part of a signature: its first 64 bytes.
pub fn signature_rs(signature: &[u8]) -> (r: [u8; 64])
    requires
        signature@.len() >= 64,
    ensures
        r@ == signature@.subrange(0, 64),
{
    let mut r_s = [0u8; 64];
    let mut i: usize = 0;
    while i < 64
        invariant
            i <= 64,
            r_s@.len() == 64,
            signature@.len() >= 64,
            forall|j: int| 0 <= j < i ==> r_s@[j] == signature@[j],
        decreases 64 - i,
    {
        r_s[i] = signature[i];
        i = i + 1;
    }
    assert(r_s@ =~= signature@.subrange(0, 64));
    r_s
}

/// Verifies a recoverable secp256k1 signature (`r ‖ s ‖ v`) against the keccak-256
/// digest of `message`: it holds when the key recovered from it is `pub_key`.
pub fn verify_issuer_signature(pub_key: &[u8; 65], signature: &[u8; 65], message: &[u8]) -> (r:
    bool)
    ensures
        r == signature_valid(pub_key@, signature@, message@),
{
    let hash = keccak256(message);
    let r_s = signature_rs(signature.as_slice());
    match recovery_id(signature[64]) {
        None => false,
        Some(id) => {
            let recovered = recover_public_key(&hash, &r_s, id);
            recovered_key_matches(pub_key, &recovered)
        },
    }
}

} // verus!

verus! {

/// Recovery-id conventions: a signature whose last byte is the raw id 0 or 1 verifies
/// exactly as the same `r ‖ s` whose last byte is that id plus 27.
pub proof fn lemma_recovery_id_equivalence(pub_key: Seq<u8>, signature: Seq<u8>, message: Seq<u8>)
    requires
        signature.len() == 65,
        signature[64] == 0 || signature[64] == 1,
    ensures
        signature_valid(pub_key, signature, message) == signature_valid(
            pub_key,
            signature.update(64, (signature[64] + 27) as u8),
            message,
        ),
{
    let shifted = signature.update(64, (signature[64] + 27) as u8);
    assert(shifted.subrange(0, 64) =~= signature.subrange(0, 64));
}

/// A fresh random secret key and its uncompressed public key.
pub fn generate_keypair() -> (r: ([u8; 32], [u8; 65]))
    ensures
        secp256k1_public_key(r.0@) == Some(r.1@),
{
    random_keypair()
}

/// Signs the canonical message of a certificate's fields with `secret_key`, as an
/// issuer does; `None` where the message is too long or the key is refused.
pub fn sign(metadata: &CertificateMetadata, secret_key: &[u8; 32]) -> (r: Option<[u8; 65]>)
    ensures
        bytes_option(r) == (if certificate_fits(
            metadata.recipient@,
            metadata.course_id@,
            metadata.metadata_uri@,
        ) {
            secp256k1_signed(
                secret_key@,
                keccak256_of(
                    certificate_message(
                        metadata.recipient@,
                        metadata.course_id@,
                        metadata.metadata_uri@,
                        metadata.issued_date,
                    ),
                ),
            )
        } else {
            None
        }),
{
    if !message_fits(&metadata.recipient, metadata.course_id.as_str(), metadata.metadata_uri.as_str()) {
        return None;
    }
    let message = build_certificate_message(
        &metadata.recipient,
        metadata.course_id.as_str(),
        metadata.metadata_uri.as_str(),
        metadata.issued_date,
    );
    let hash = keccak256(message.as_slice());
    sign_prehash(secret_key, &hash)
}

} // verus!
