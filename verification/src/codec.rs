//! Hexadecimal text, and the digests the updater takes of keys and files.

use vstd::prelude::*;
use vstd::utf8::encode_utf8;
use hex::FromHex;
use hmac::Mac;
use md5::Digest;

verus! {

/// The upper-case hexadecimal digit of `n` (0 to 15).
pub open spec fn hex_digit_upper(n: int) -> char {
    if n < 10 {
        (48 + n) as char
    } else {
        (55 + n) as char
    }
}

/// The lower-case hexadecimal digit of `n` (0 to 15).
pub open spec fn hex_digit_lower(n: int) -> char {
    if n < 10 {
        (48 + n) as char
    } else {
        (87 + n) as char
    }
}

/// Bytes as upper-case hexadecimal text: two digits per byte, the high half first.
pub open spec fn hex_upper(b: Seq<u8>) -> Seq<char>
    decreases b.len(),
{
    if b.len() == 0 {
        Seq::empty()
    } else {
        seq![hex_digit_upper(b[0] as int / 16), hex_digit_upper(b[0] as int % 16)] + hex_upper(b.drop_first())
    }
}

/// Bytes as lower-case hexadecimal text: two digits per byte, the high half first.
pub open spec fn hex_lower(b: Seq<u8>) -> Seq<char>
    decreases b.len(),
{
    if b.len() == 0 {
        Seq::empty()
    } else {
        seq![hex_digit_lower(b[0] as int / 16), hex_digit_lower(b[0] as int % 16)] + hex_lower(b.drop_first())
    }
}

/// The value of a hexadecimal digit of either case.
pub open spec fn hex_value(c: char) -> Option<int> {
    if '0' <= c && c <= '9' {
        Some(c as int - 48)
    } else if 'a' <= c && c <= 'f' {
        Some(c as int - 87)
    } else if 'A' <= c && c <= 'F' {
        Some(c as int - 55)
    } else {
        None
    }
}

/// Whether `s` is hexadecimal text: an even number of hexadecimal digits.
pub open spec fn is_hex_text(s: Seq<char>) -> bool {
    &&& s.len() % 2 == 0
    &&& forall|i: int| 0 <= i < s.len() ==> (#[trigger] hex_value(s[i])) is Some
}

/// The bytes that hexadecimal text stands for, two digits per byte.
pub open spec fn hex_bytes(s: Seq<char>) -> Seq<u8> {
    Seq::new(
        s.len() / 2,
        |i: int| (hex_value(s[2 * i])->0 * 16 + hex_value(s[2 * i + 1])->0) as u8,
    )
}

/// Whether `c` is an upper-case hexadecimal digit.
pub open spec fn is_upper_hex_digit(c: char) -> bool {
    ('0' <= c && c <= '9') || ('A' <= c && c <= 'F')
}

/// Upper-case hexadecimal text has two digits per byte, each `0`-`9` or `A`-`F`.
pub proof fn lemma_hex_upper_shape(b: Seq<u8>)
    ensures
        hex_upper(b).len() == 2 * b.len(),
        forall|i: int| 0 <= i < hex_upper(b).len() ==> is_upper_hex_digit(#[trigger] hex_upper(b)[i]),
    decreases b.len(),
{
    if b.len() > 0 {
        lemma_hex_upper_shape(b.drop_first());
        let hi = b[0] as int / 16;
        let lo = b[0] as int % 16;
        assert(is_upper_hex_digit(hex_digit_upper(hi)));
        assert(is_upper_hex_digit(hex_digit_upper(lo)));
        let h = hex_upper(b);
        let rest = hex_upper(b.drop_first());
        assert(h =~= seq![hex_digit_upper(hi), hex_digit_upper(lo)] + rest);
        assert forall|i: int| 0 <= i < h.len() implies is_upper_hex_digit(#[trigger] h[i]) by {
            if i >= 2 {
                assert(h[i] == rest[i - 2]);
            }
        }
    }
}

/// An outside type: the error of `hex` for text that is not hexadecimal.
#[verifier::external_type_specification]
#[verifier::external_body]
pub struct ExFromHexError(hex::FromHexError);

/// Trusted: `Vec::<u8>::from_hex` of the `hex` crate. Its source accepts an
/// even number of bytes that are all hexadecimal digits of either case and
/// reads each pair as a byte, high half first; text with a character that is
/// not such a digit (one outside ASCII among them) or with an odd length is refused.
#[verifier::external_body]
pub(crate) fn hex_decode(text: &str) -> (r: Result<Vec<u8>, hex::FromHexError>)
    ensures
        r is Ok <==> is_hex_text(text@),
        r matches Ok(v) ==> v@ == hex_bytes(text@),
{
    Vec::<u8>::from_hex(text)
}

/// Trusted: `hex::encode_upper`, which writes each byte as two upper-case
/// digits, the high half first (its source walks the bytes in order).
#[verifier::external_body]
pub(crate) fn hex_encode_upper(data: &[u8]) -> (r: String)
    ensures
        r@ == hex_upper(data@),
{
    hex::encode_upper(data)
}

/// Trusted: `hex::encode`, which writes each byte as two lower-case digits,
/// the high half first.
#[verifier::external_body]
pub(crate) fn hex_encode(data: &[u8]) -> (r: String)
    ensures
        r@ == hex_lower(data@),
{
    hex::encode(data)
}

/// The HMAC-SHA1 tag of `message` under `key`.
pub uninterp spec fn hmac_sha1(key: Seq<u8>, message: Seq<u8>) -> Seq<u8>;

/// An outside type: the error `Mac::new_from_slice` declares for a key of a wrong length.
#[verifier::external_type_specification]
#[verifier::external_body]
pub struct ExInvalidLength(hmac::digest::InvalidLength);

/// Trusted: keys `hmac::Hmac<sha1::Sha1>` with `Mac::new_from_slice`, feeds
/// it `message` with `Mac::update` and takes `Mac::finalize`. The tag is named
/// `hmac_sha1`; SHA-1 tags are 20 bytes. The source of `new_from_slice` for
/// HMAC hashes or pads a key of any length and never refuses one.
#[verifier::external_body]
pub(crate) fn hmac_sha1_tag(key: &[u8], message: &[u8]) -> (r: Result<Vec<u8>, hmac::digest::InvalidLength>)
    ensures
        r is Ok,
        r matches Ok(t) ==> t@ == hmac_sha1(key@, message@) && t@.len() == 20,
{
    let mut mac = match hmac::Hmac::<sha1::Sha1>::new_from_slice(key) {
        Ok(m) => m,
        Err(e) => return Err(e),
    };
    mac.update(message);
    Ok(mac.finalize().into_bytes().to_vec())
}

/// The MD5 digest of `data`.
pub uninterp spec fn md5(data: Seq<u8>) -> Seq<u8>;

/// Trusted: `md5::Md5::digest` of the `md-5` crate, named `md5`; an MD5
/// digest is 16 bytes.
#[verifier::external_body]
pub(crate) fn md5_digest(data: &[u8]) -> (r: Vec<u8>)
    ensures
        r@ == md5(data@),
        r@.len() == 16,
{
    md5::Md5::digest(data).to_vec()
}

/// The UTF-8 bytes of a string.
pub fn utf8_bytes(s: &str) -> (r: Vec<u8>)
    ensures
        r@ == encode_utf8(s@),
{
    s.as_bytes_vec()
}

} // verus!
