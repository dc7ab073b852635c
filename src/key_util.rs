use vstd::prelude::*;
use crate::signature::{keccak256_digest, keccak256_of};
use crate::encoding::utf8;

verus! {

/// The lowercase hexadecimal digit for a value below 16.
pub open spec fn hex_digit(v: u8) -> char {
    if v < 10 {
        (('0' as u8) + v) as char
    } else {
        (('a' as u8) + v - 10) as char
    }
}

/// Two lowercase hexadecimal digits per byte, high nibble first.
pub open spec fn hex_encoded(data: Seq<u8>) -> Seq<char> {
    Seq::new(
        2 * data.len(),
        |i: int|
            if i % 2 == 0 {
                hex_digit(data[i / 2] / 16)
            } else {
                hex_digit(data[i / 2] % 16)
            },
    )
}

/// Whether `c` is a hexadecimal digit of either case.
pub open spec fn is_hex_byte(c: u8) -> bool {
    (48 <= c <= 57) || (65 <= c <= 70) || (97 <= c <= 102)
}

/// The value of a hexadecimal digit of either case.
pub open spec fn hex_value(c: u8) -> u8 {
    if 48 <= c <= 57 {
        (c - 48) as u8
    } else if 65 <= c <= 70 {
        (c - 55) as u8
    } else {
        (c - 87) as u8
    }
}

/// Whether `text` is an even number of hexadecimal digits.
pub open spec fn hex_decodable(text: Seq<u8>) -> bool {
    &&& text.len() % 2 == 0
    &&& forall|i: int| 0 <= i < text.len() ==> is_hex_byte(#[trigger] text[i])
}

/// The bytes that an even run of hexadecimal digits stands for, high nibble first.
pub open spec fn hex_decoded(text: Seq<u8>) -> Seq<u8> {
    Seq::new(
        text.len() / 2,
        |i: int| (hex_value(text[2 * i]) * 16 + hex_value(text[2 * i + 1])) as u8,
    )
}

/// The error of `hex::decode`, carried through unread.
#[verifier::external_type_specification]
#[verifier::external_body]
pub struct ExFromHexError(hex::FromHexError);

/// Relies on `hex::encode`: lowercase digits, two per byte, high nibble first.
#[verifier::external_body]
pub(crate) fn hex_encode(data: &[u8]) -> (r: String)
    ensures
        r@ == hex_encoded(data@),
{
    hex::encode(data)
}

/// Relies on `hex::decode`: an odd length or a byte that is no hexadecimal digit
/// (either case) is refused; otherwise each pair of digits gives one byte.
#[verifier::external_body]
pub(crate) fn hex_decode(text: &[u8]) -> (r: Result<Vec<u8>, hex::FromHexError>)
    ensures
        match r {
            Ok(bytes) => hex_decodable(text@) && bytes@ == hex_decoded(text@),
            Err(_) => !hex_decodable(text@),
        },
{
    hex::decode(text)
}

/// The SEC1 compressed form of an uncompressed public key: `0x02` or `0x03` after the
/// parity of `y`, then `x`.
pub open spec fn compressed_point(pk: Seq<u8>) -> Seq<u8> {
    seq![(2 + pk[64] % 2) as u8] + pk.subrange(1, 33)
}

/// The compressed form of an uncompressed public key, in hexadecimal without `0x`.
pub fn compress_public_key(pk: &[u8; 65]) -> (r: String)
    ensures
        r@ == hex_encoded(compressed_point(pk@)),
{
    let mut compressed: Vec<u8> = Vec::new();
    compressed.push(2 + pk[64] % 2);
    let mut i: usize = 1;
    while i < 33
        invariant
            1 <= i <= 33,
            pk@.len() == 65,
            compressed@ == seq![(2 + pk@[64] % 2) as u8] + pk@.subrange(1, i as int),
        decreases 33 - i,
    {
        compressed.push(pk[i]);
        assert(pk@.subrange(1, i + 1) =~= pk@.subrange(1, i as int).push(pk@[i as int]));
        i = i + 1;
    }
    hex_encode(compressed.as_slice())
}

/// An uncompressed public key in hexadecimal without `0x`.
pub fn hex_public_key(pk: &[u8; 65]) -> (r: String)
    ensures
        r@ == hex_encoded(pk@),
{
    hex_encode(pk.as_slice())
}

/// The keccak-256 digest of the UTF-8 bytes of `message`.
pub fn hash_keccak256(message: &str) -> (r: [u8; 32])
    ensures
        r@ == keccak256_of(utf8(message@)),
{
    keccak256_digest(message.as_bytes())
}

} // verus!
