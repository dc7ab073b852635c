use vstd::prelude::*;
use crate::types::Address;

verus! {

/// The ASCII decimal digits of `n`, most significant first, with no leading zeros
/// ("0" for zero).
pub open spec fn decimal_digits(n: nat) -> Seq<u8>
    decreases n,
{
    if n < 10 {
        seq![(n + 48) as u8]
    } else {
        decimal_digits(n / 10).push(((n % 10) + 48) as u8)
    }
}

/// Represents `number` as the ASCII codes of its decimal digits (`12` gives `[49, 50]`).
pub fn number_to_string_bytes(number: u64) -> (r: Vec<u8>)
    ensures
        r@ == decimal_digits(number as nat),
{
    let mut out: Vec<u8> = Vec::new();
    let mut num: u64 = number;
    while num >= 10
        invariant
            decimal_digits(number as nat) == decimal_digits(num as nat) + out@,
        decreases num,
    {
        let digit: u8 = (num % 10) as u8;
        proof {
            assert(decimal_digits(num as nat) == decimal_digits((num / 10) as nat).push(
                (digit + 48) as u8,
            ));
            assert(decimal_digits((num / 10) as nat).push((digit + 48) as u8) + out@
                =~= decimal_digits((num / 10) as nat) + seq![(digit + 48) as u8].add(out@));
        }
        out.insert(0, digit + 48);
        num = num / 10;
    }
    let ghost tail = out@;
    out.insert(0, (num as u8) + 48);
    assert(out@ =~= decimal_digits(num as nat) + tail);
    out
}

} // verus!

verus! {

/// The prefix that every certificate message starts with.
pub const CERTIFICATE_MESSAGE_PREFIX: &'static str = "\x19Tradoxus Signed Message:\n";

/// The UTF-8 bytes of `s`.
pub open spec fn utf8(s: Seq<char>) -> Seq<u8> {
    vstd::utf8::encode_utf8(s)
}

/// The number of bytes that the length field of a certificate message counts:
/// course id, recipient, metadata URI and date, without the prefix.
pub open spec fn certificate_body_len(
    recipient: Seq<char>,
    course_id: Seq<char>,
    metadata_uri: Seq<char>,
    issued_date: u64,
) -> nat {
    utf8(course_id).len() + utf8(recipient).len() + utf8(metadata_uri).len() + decimal_digits(
        issued_date as nat,
    ).len()
}

/// The canonical message that an issuer signs for a certificate: prefix, decimal length
/// of the body, then course id, recipient, metadata URI and decimal date, with no
/// delimiters.
pub open spec fn certificate_message(
    recipient: Seq<char>,
    course_id: Seq<char>,
    metadata_uri: Seq<char>,
    issued_date: u64,
) -> Seq<u8> {
    utf8(CERTIFICATE_MESSAGE_PREFIX@) + decimal_digits(
        certificate_body_len(recipient, course_id, metadata_uri, issued_date),
    ) + utf8(course_id) + utf8(recipient) + utf8(metadata_uri) + decimal_digits(issued_date as nat)
}

/// Whether the body of a certificate message has a length that a `u64` holds.
pub open spec fn certificate_fits(
    recipient: Seq<char>,
    course_id: Seq<char>,
    metadata_uri: Seq<char>,
) -> bool {
    utf8(course_id).len() + utf8(recipient).len() + utf8(metadata_uri).len() + 20 <= u64::MAX
}

/// Whether the body of a certificate message has a length that a `u64` holds.
pub fn message_fits(recipient: &Address, course_id: &str, metadata_uri: &str) -> (r: bool)
    ensures
        r == certificate_fits(recipient@, course_id@, metadata_uri@),
{
    let a = course_id.as_bytes().len() as u64;
    let b = recipient.as_str().as_bytes().len() as u64;
    let c = metadata_uri.as_bytes().len() as u64;
    if a > u64::MAX - 20 {
        return false;
    }
    if b > u64::MAX - 20 - a {
        return false;
    }
    c <= u64::MAX - 20 - a - b
}

/// Converts a string to the bytes of its UTF-8 encoding.
pub fn string_to_bytes(s: &str) -> (r: Vec<u8>)
    ensures
        r@ == utf8(s@),
{
    s.as_bytes_vec()
}

/// Concatenates byte strings in order.
pub fn concatenate_bytes(strings: &Vec<Vec<u8>>) -> (r: Vec<u8>)
    ensures
        r@ == strings@.map_values(|b: Vec<u8>| b@).flatten(),
{
    let ghost parts = strings@.map_values(|b: Vec<u8>| b@);
    let mut concatenated: Vec<u8> = Vec::new();
    let mut i: usize = 0;
    while i < strings.len()
        invariant
            i <= strings@.len(),
            parts == strings@.map_values(|b: Vec<u8>| b@),
            concatenated@ == parts.subrange(0, i as int).flatten(),
        decreases strings@.len() - i,
    {
        let group = &strings[i];
        let ghost before = concatenated@;
        let mut j: usize = 0;
        while j < group.len()
            invariant
                j <= group@.len(),
                concatenated@ == before + group@.subrange(0, j as int),
            decreases group@.len() - j,
        {
            concatenated.push(group[j]);
            assert(group@.subrange(0, j + 1) =~= group@.subrange(0, j as int).push(group@[j as int]));
            j = j + 1;
        }
        proof {
            assert(group@.subrange(0, j as int) =~= group@);
            assert(parts.subrange(0, i + 1) =~= parts.subrange(0, i as int).push(parts[i as int]));
            parts.subrange(0, i as int).lemma_flatten_push(parts[i as int]);
        }
        i = i + 1;
    }
    assert(parts.subrange(0, i as int) =~= parts);
    concatenated
}

/// Builds the canonical message that an issuer signs for a certificate.
pub fn build_certificate_message(
    recipient: &Address,
    course_id: &str,
    metadata_uri: &str,
    issued_date: u64,
) -> (r: Vec<u8>)
    requires
        certificate_fits(recipient@, course_id@, metadata_uri@),
    ensures
        r@ == certificate_message(recipient@, course_id@, metadata_uri@, issued_date),
{
    let prefix_bytes = string_to_bytes(CERTIFICATE_MESSAGE_PREFIX);
    let course_id_bytes = string_to_bytes(course_id);
    let recipient_bytes = string_to_bytes(recipient.as_str());
    let metadata_uri_bytes = string_to_bytes(metadata_uri);
    let issued_date_bytes = number_to_string_bytes(issued_date);
    proof {
        lemma_u64_digits_len(issued_date);
    }
    let message_len: u64 = course_id_bytes.len() as u64 + recipient_bytes.len() as u64
        + metadata_uri_bytes.len() as u64 + issued_date_bytes.len() as u64;
    let len_bytes = number_to_string_bytes(message_len);
    let parts: Vec<Vec<u8>> = vec![
        prefix_bytes,
        len_bytes,
        course_id_bytes,
        recipient_bytes,
        metadata_uri_bytes,
        issued_date_bytes,
    ];
    let message = concatenate_bytes(&parts);
    proof {
        let views = parts@.map_values(|b: Vec<u8>| b@);
        reveal_with_fuel(Seq::flatten, 7);
        assert(views.drop_first().drop_first().drop_first().drop_first().drop_first().drop_first()
            =~= Seq::<Seq<u8>>::empty());
        assert(views.flatten() =~= certificate_message(
            recipient@,
            course_id@,
            metadata_uri@,
            issued_date,
        ));
    }
    message
}

/// Ten to the power `k`.
pub open spec fn pow10(k: nat) -> nat
    decreases k,
{
    if k == 0 {
        1
    } else {
        10 * pow10((k - 1) as nat)
    }
}

/// A number below `10^k` has at most `k` decimal digits, and every number has at least one.
pub proof fn lemma_decimal_digits_len(n: nat, k: nat)
    ensures
        decimal_digits(n).len() >= 1,
        k >= 1 && n < pow10(k) ==> decimal_digits(n).len() <= k,
    decreases n,
{
    if n >= 10 {
        lemma_decimal_digits_len(n / 10, (k - 1) as nat);
        if k >= 1 && n < pow10(k) {
            if k == 1 {
                assert(pow10(1) == 10) by {
                    reveal_with_fuel(pow10, 2);
                }
            } else {
                assert(n / 10 < pow10((k - 1) as nat));
            }
        }
    }
}

/// A `u64` has at most 20 decimal digits.
pub proof fn lemma_u64_digits_len(n: u64)
    ensures
        1 <= decimal_digits(n as nat).len() <= 20,
{
    assert(pow10(20) == 100_000_000_000_000_000_000nat) by {
        reveal_with_fuel(pow10, 21);
    }
    lemma_decimal_digits_len(n as nat, 20);
}

/// Different numbers have different decimal digits.
pub proof fn lemma_decimal_digits_injective(a: nat, b: nat)
    requires
        decimal_digits(a) == decimal_digits(b),
    ensures
        a == b,
    decreases a,
{
    lemma_decimal_digits_len(a / 10, 0);
    lemma_decimal_digits_len(b / 10, 0);
    if a < 10 && b < 10 {
        assert(decimal_digits(a)[0] == decimal_digits(b)[0]);
        assert(decimal_digits(a)[0] == (a + 48) as u8);
        assert(decimal_digits(b)[0] == (b + 48) as u8);
    } else if a >= 10 && b >= 10 {
        let da = decimal_digits(a);
        let db = decimal_digits(b);
        assert(da.last() == db.last());
        assert(da.drop_last() =~= decimal_digits(a / 10));
        assert(db.drop_last() =~= decimal_digits(b / 10));
        lemma_decimal_digits_injective(a / 10, b / 10);
        assert(a % 10 == b % 10);
        assert(a == 10 * (a / 10) + a % 10);
        assert(b == 10 * (b / 10) + b % 10);
    } else if a < 10 {
        assert(decimal_digits(b).len() == decimal_digits(b / 10).len() + 1);
    } else {
        assert(decimal_digits(a).len() == decimal_digits(a / 10).len() + 1);
    }
}

/// Tampering with a field changes the signed bytes: where every field keeps its byte
/// length but one field's bytes (or the date) differ, the canonical messages differ,
/// so a stored signature is checked against other bytes than were signed.
pub proof fn lemma_tampered_field_changes_message(
    recipient: Seq<char>,
    course_id: Seq<char>,
    metadata_uri: Seq<char>,
    issued_date: u64,
    recipient2: Seq<char>,
    course_id2: Seq<char>,
    metadata_uri2: Seq<char>,
    issued_date2: u64,
)
    requires
        utf8(recipient).len() == utf8(recipient2).len(),
        utf8(course_id).len() == utf8(course_id2).len(),
        utf8(metadata_uri).len() == utf8(metadata_uri2).len(),
        decimal_digits(issued_date as nat).len() == decimal_digits(issued_date2 as nat).len(),
        utf8(recipient) != utf8(recipient2) || utf8(course_id) != utf8(course_id2) || utf8(
            metadata_uri,
        ) != utf8(metadata_uri2) || issued_date != issued_date2,
    ensures
        certificate_message(recipient, course_id, metadata_uri, issued_date) != certificate_message(
            recipient2,
            course_id2,
            metadata_uri2,
            issued_date2,
        ),
{
    let m1 = certificate_message(recipient, course_id, metadata_uri, issued_date);
    let m2 = certificate_message(recipient2, course_id2, metadata_uri2, issued_date2);
    let head = utf8(CERTIFICATE_MESSAGE_PREFIX@) + decimal_digits(
        certificate_body_len(recipient, course_id, metadata_uri, issued_date),
    );
    let o1 = head.len() as int;
    let o2 = o1 + utf8(course_id).len();
    let o3 = o2 + utf8(recipient).len();
    let o4 = o3 + utf8(metadata_uri).len();
    let o5 = o4 + decimal_digits(issued_date as nat).len();
    assert(m1.subrange(o1, o2) =~= utf8(course_id));
    assert(m2.subrange(o1, o2) =~= utf8(course_id2));
    assert(m1.subrange(o2, o3) =~= utf8(recipient));
    assert(m2.subrange(o2, o3) =~= utf8(recipient2));
    assert(m1.subrange(o3, o4) =~= utf8(metadata_uri));
    assert(m2.subrange(o3, o4) =~= utf8(metadata_uri2));
    assert(m1.subrange(o4, o5) =~= decimal_digits(issued_date as nat));
    assert(m2.subrange(o4, o5) =~= decimal_digits(issued_date2 as nat));
    if m1 == m2 {
        if issued_date != issued_date2 {
            lemma_decimal_digits_injective(issued_date as nat, issued_date2 as nat);
        }
    }
}

} // verus!
