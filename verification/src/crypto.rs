//! Digests, message authentication codes and text encodings of bytes.
use base64::Engine;
use hmac::{Hmac, KeyInit, Mac};
use sha1::{Digest, Sha1};
use sha2::Sha256;
use vstd::prelude::*;
use vstd::utf8::*;

verus! {

/// The SHA-1 digest of a message.
pub uninterp spec fn sha1_digest(message: Seq<u8>) -> Seq<u8>;

/// The SHA-256 digest of a message.
pub uninterp spec fn sha256_digest(message: Seq<u8>) -> Seq<u8>;

/// The HMAC-SHA1 code of a message under a key.
pub uninterp spec fn hmac_sha1(key: Seq<u8>, message: Seq<u8>) -> Seq<u8>;

/// The HMAC-SHA256 code of a message under a key.
pub uninterp spec fn hmac_sha256(key: Seq<u8>, message: Seq<u8>) -> Seq<u8>;

/// The bytes that a base64 text stands for, or the reason why it stands for none.
pub uninterp spec fn base64_bytes(encoded: Seq<u8>) -> Result<Seq<u8>, Seq<char>>;

/// The base64 text of bytes.
pub uninterp spec fn base64_text(bytes: Seq<u8>) -> Seq<char>;

/// Whether a character is a hexadecimal digit.
pub open spec fn is_hex_digit(c: char) -> bool {
    ('0' <= c && c <= '9') || ('a' <= c && c <= 'f') || ('A' <= c && c <= 'F')
}

/// The value of a hexadecimal digit.
pub open spec fn hex_digit_value(c: char) -> int {
    if '0' <= c && c <= '9' {
        c as int - '0' as int
    } else if 'a' <= c && c <= 'f' {
        c as int - 'a' as int + 10
    } else {
        c as int - 'A' as int + 10
    }
}

/// The bytes that pairs of hexadecimal digits stand for.
pub open spec fn hex_bytes(s: Seq<char>) -> Option<Seq<u8>> {
    if s.len() % 2 == 0 && forall|i: int| 0 <= i < s.len() ==> is_hex_digit(#[trigger] s[i]) {
        Some(
            Seq::new(
                s.len() / 2,
                |i: int| (16 * hex_digit_value(s[2 * i]) + hex_digit_value(s[2 * i + 1])) as u8,
            ),
        )
    } else {
        None
    }
}

/// The lowercase hexadecimal digit of a value below sixteen.
pub open spec fn hex_digit(d: int) -> char {
    if d < 10 {
        ('0' as int + d) as char
    } else {
        ('a' as int + d - 10) as char
    }
}

/// The bytes as pairs of lowercase hexadecimal digits.
pub open spec fn hex_text(bytes: Seq<u8>) -> Seq<char> {
    Seq::new(
        2 * bytes.len(),
        |i: int|
            hex_digit(
                if i % 2 == 0 {
                    bytes[i / 2] as int / 16
                } else {
                    bytes[i / 2] as int % 16
                },
            ),
    )
}

/// `hex::decode`: the bytes that the text stands for, exactly where it is an even number of
/// hexadecimal digits of either case.
#[verifier::external_body]
pub(crate) fn hex_decode(s: &str) -> (r: Option<Vec<u8>>)
    ensures
        match r {
            Some(b) => hex_bytes(s@) == Some(b@),
            None => hex_bytes(s@) is None,
        },
{
    hex::decode(s).ok()
}

/// `hex::encode`: two lowercase hexadecimal digits for each byte.
#[verifier::external_body]
pub(crate) fn hex_encode(bytes: &[u8]) -> (r: String)
    ensures
        r@ == hex_text(bytes@),
{
    hex::encode(bytes)
}

/// `sha1::Sha1::digest`: a function of the message alone.
#[verifier::external_body]
pub(crate) fn sha1(message: &[u8]) -> (r: Vec<u8>)
    ensures
        r@ == sha1_digest(message@),
{
    Sha1::digest(message).to_vec()
}

/// `sha2::Sha256::digest`: a function of the message alone.
#[verifier::external_body]
pub(crate) fn sha256(message: &[u8]) -> (r: Vec<u8>)
    ensures
        r@ == sha256_digest(message@),
{
    Sha256::digest(message).to_vec()
}

/// `hmac::Hmac<Sha1>` and its `verify_slice`: whether `tag` is, byte for byte and in length, the
/// code of the message under the key. Any key is accepted. The bytes are compared in constant time.
#[verifier::external_body]
pub(crate) fn hmac_sha1_matches(key: &[u8], message: &[u8], tag: &[u8]) -> (r: bool)
    ensures
        r == (tag@ == hmac_sha1(key@, message@)),
{
    match Hmac::<Sha1>::new_from_slice(key) {
        Ok(mut mac) => {
            mac.update(message);
            mac.verify_slice(tag).is_ok()
        },
        Err(_) => false,
    }
}

/// `hmac::Hmac<Sha256>` and its `verify_slice`: whether `tag` is, byte for byte and in length, the
/// code of the message under the key. Any key is accepted. The bytes are compared in constant time.
#[verifier::external_body]
pub(crate) fn hmac_sha256_matches(key: &[u8], message: &[u8], tag: &[u8]) -> (r: bool)
    ensures
        r == (tag@ == hmac_sha256(key@, message@)),
{
    match Hmac::<Sha256>::new_from_slice(key) {
        Ok(mut mac) => {
            mac.update(message);
            mac.verify_slice(tag).is_ok()
        },
        Err(_) => false,
    }
}

/// `decode` of base64's `STANDARD` engine: the bytes that the encoded ones stand for, or why they
/// stand for none. It depends on the encoded bytes alone.
#[verifier::external_body]
pub(crate) fn base64_decode(encoded: &[u8]) -> (r: Result<Vec<u8>, String>)
    ensures
        match r {
            Ok(b) => base64_bytes(encoded@) matches Ok(x) && b@ == x,
            Err(reason) => base64_bytes(encoded@) matches Err(x) && reason@ == x,
        },
{
    base64::engine::general_purpose::STANDARD.decode(encoded).map_err(|e| e.to_string())
}

/// Whether a base64 text stands for the given bytes.
pub open spec fn decodes_to(encoded: Seq<char>, bytes: Seq<u8>) -> bool {
    base64_bytes(encode_utf8(encoded)) matches Ok(x) && x == bytes
}

/// `encode` of base64's `STANDARD` engine: a text that the engine decodes back to the bytes. It
/// depends on the bytes alone.
#[verifier::external_body]
pub(crate) fn base64_encode(bytes: &[u8]) -> (r: String)
    ensures
        r@ == base64_text(bytes@),
        decodes_to(r@, bytes@),
{
    base64::engine::general_purpose::STANDARD.encode(bytes)
}

/// What hexadecimal encoding writes, decoding reads back.
pub proof fn hex_round_trip(bytes: Seq<u8>)
    ensures
        hex_bytes(hex_text(bytes)) == Some(bytes),
{
    let t = hex_text(bytes);
    lemma_hex_text_digits(bytes);
    let back = hex_bytes(t)->0;
    assert(back.len() == bytes.len());
    assert forall|i: int| 0 <= i < bytes.len() implies back[i] == bytes[i] by {
        let b = bytes[i] as int;
        assert((2 * i) / 2 == i && (2 * i) % 2 == 0);
        assert((2 * i + 1) / 2 == i && (2 * i + 1) % 2 == 1);
        assert(t[2 * i] == hex_digit(b / 16));
        assert(t[2 * i + 1] == hex_digit(b % 16));
        assert(hex_digit_value(hex_digit(b / 16)) == b / 16);
        assert(hex_digit_value(hex_digit(b % 16)) == b % 16);
    }
    assert(back =~= bytes);
}

/// Hexadecimal text consists of hexadecimal digits.
pub proof fn lemma_hex_text_digits(bytes: Seq<u8>)
    ensures
        forall|i: int| 0 <= i < hex_text(bytes).len() ==> is_hex_digit(#[trigger] hex_text(bytes)[i]),
{
    let t = hex_text(bytes);
    assert forall|i: int| 0 <= i < t.len() implies is_hex_digit(#[trigger] t[i]) by {
        let d = if i % 2 == 0 {
            bytes[i / 2] as int / 16
        } else {
            bytes[i / 2] as int % 16
        };
        assert(0 <= d < 16);
    }
}

} // verus!
