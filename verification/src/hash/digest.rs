//! The cryptographic primitives this library builds on: SHA-2 from `sha2`,
//! hexadecimal text from `hex`, and constant-time comparison from `subtle`.
use vstd::prelude::*;
use sha2::{Digest, Sha256, Sha384, Sha512};
use subtle::ConstantTimeEq;
use crate::text::{is_hex_digit, all_hex_digits, utf8_len};

verus! {

/// The SHA-256 digest of `data`.
pub uninterp spec fn sha256(data: Seq<u8>) -> [u8; 32];

/// The SHA-384 digest of `data`.
pub uninterp spec fn sha384(data: Seq<u8>) -> [u8; 48];

/// The SHA-512 digest of `data`.
pub uninterp spec fn sha512(data: Seq<u8>) -> [u8; 64];

/// An incremental SHA-256 hasher: `sha2`'s `Sha256`, held opaque.
#[verifier::external_body]
pub struct Sha256State {
    inner: Sha256,
}

/// An incremental SHA-384 hasher: `sha2`'s `Sha384`, held opaque.
#[verifier::external_body]
pub struct Sha384State {
    inner: Sha384,
}

/// An incremental SHA-512 hasher: `sha2`'s `Sha512`, held opaque.
#[verifier::external_body]
pub struct Sha512State {
    inner: Sha512,
}

/// The bytes a SHA-256 hasher has been fed since it was created.
pub uninterp spec fn sha256_fed(h: Sha256State) -> Seq<u8>;

/// The bytes a SHA-384 hasher has been fed since it was created.
pub uninterp spec fn sha384_fed(h: Sha384State) -> Seq<u8>;

/// The bytes a SHA-512 hasher has been fed since it was created.
pub uninterp spec fn sha512_fed(h: Sha512State) -> Seq<u8>;

/// `Sha256::digest`: the SHA-256 digest of `data`.
#[verifier::external_body]
pub(crate) fn sha256_digest(data: &[u8]) -> (r: Vec<u8>)
    ensures
        r@ == sha256(data@)@,
{
    Sha256::digest(data).to_vec()
}

/// `Sha384::digest`: the SHA-384 digest of `data`.
#[verifier::external_body]
pub(crate) fn sha384_digest(data: &[u8]) -> (r: Vec<u8>)
    ensures
        r@ == sha384(data@)@,
{
    Sha384::digest(data).to_vec()
}

/// `Sha512::digest`: the SHA-512 digest of `data`.
#[verifier::external_body]
pub(crate) fn sha512_digest(data: &[u8]) -> (r: Vec<u8>)
    ensures
        r@ == sha512(data@)@,
{
    Sha512::digest(data).to_vec()
}

/// `Sha256::new`: a hasher that has been fed nothing.
#[verifier::external_body]
pub(crate) fn sha256_new() -> (r: Sha256State)
    ensures
        sha256_fed(r) == Seq::<u8>::empty(),
{
    Sha256State { inner: Sha256::new() }
}

/// `Sha384::new`: a hasher that has been fed nothing.
#[verifier::external_body]
pub(crate) fn sha384_new() -> (r: Sha384State)
    ensures
        sha384_fed(r) == Seq::<u8>::empty(),
{
    Sha384State { inner: Sha384::new() }
}

/// `Sha512::new`: a hasher that has been fed nothing.
#[verifier::external_body]
pub(crate) fn sha512_new() -> (r: Sha512State)
    ensures
        sha512_fed(r) == Seq::<u8>::empty(),
{
    Sha512State { inner: Sha512::new() }
}

/// `Digest::update` on SHA-256: feeds `data` after what came before.
#[verifier::external_body]
pub(crate) fn sha256_update(h: &mut Sha256State, data: &[u8])
    ensures
        sha256_fed(*final(h)) == sha256_fed(*old(h)) + data@,
{
    h.inner.update(data);
}

/// `Digest::update` on SHA-384: feeds `data` after what came before.
#[verifier::external_body]
pub(crate) fn sha384_update(h: &mut Sha384State, data: &[u8])
    ensures
        sha384_fed(*final(h)) == sha384_fed(*old(h)) + data@,
{
    h.inner.update(data);
}

/// `Digest::update` on SHA-512: feeds `data` after what came before.
#[verifier::external_body]
pub(crate) fn sha512_update(h: &mut Sha512State, data: &[u8])
    ensures
        sha512_fed(*final(h)) == sha512_fed(*old(h)) + data@,
{
    h.inner.update(data);
}

/// `Digest::finalize` on SHA-256: the digest of everything fed.
#[verifier::external_body]
pub(crate) fn sha256_finalize(h: Sha256State) -> (r: Vec<u8>)
    ensures
        r@ == sha256(sha256_fed(h))@,
{
    h.inner.finalize().to_vec()
}

/// `Digest::finalize` on SHA-384: the digest of everything fed.
#[verifier::external_body]
pub(crate) fn sha384_finalize(h: Sha384State) -> (r: Vec<u8>)
    ensures
        r@ == sha384(sha384_fed(h))@,
{
    h.inner.finalize().to_vec()
}

/// `Digest::finalize` on SHA-512: the digest of everything fed.
#[verifier::external_body]
pub(crate) fn sha512_finalize(h: Sha512State) -> (r: Vec<u8>)
    ensures
        r@ == sha512(sha512_fed(h))@,
{
    h.inner.finalize().to_vec()
}

/// The lowercase hexadecimal digit for `n < 16`.
pub open spec fn hex_char(n: int) -> char {
    if n < 10 {
        (48 + n) as char
    } else {
        (87 + n) as char
    }
}

/// The lowercase hexadecimal text of `bytes`: two digits per byte, the high
/// nibble first.
pub open spec fn hex_text(bytes: Seq<u8>) -> Seq<char> {
    Seq::new(
        2 * bytes.len(),
        |i: int|
            if i % 2 == 0 {
                hex_char(bytes[i / 2] as int / 16)
            } else {
                hex_char(bytes[i / 2] as int % 16)
            },
    )
}

/// The value of a hexadecimal digit of either case.
pub open spec fn hex_value(c: char) -> int {
    if '0' <= c && c <= '9' {
        c as int - 48
    } else if 'a' <= c && c <= 'f' {
        c as int - 87
    } else {
        c as int - 55
    }
}

/// Text that `hex::decode` accepts: an even number of hexadecimal digits.
pub open spec fn hex_decodable(s: Seq<char>) -> bool {
    s.len() % 2 == 0 && all_hex_digits(s)
}

/// The bytes that hexadecimal text stands for, two digits per byte.
pub open spec fn hex_bytes(s: Seq<char>) -> Seq<u8> {
    Seq::new(s.len() / 2, |i: int| (hex_value(s[2 * i]) * 16 + hex_value(s[2 * i + 1])) as u8)
}

/// `hex::encode`: the lowercase hexadecimal text of `data`.
#[verifier::external_body]
pub(crate) fn hex_encode(data: &[u8]) -> (r: String)
    ensures
        r@ == hex_text(data@),
{
    hex::encode(data)
}

/// The error `hex::decode` reports on text it refuses (an odd number of
/// bytes, or the first byte that is no hexadecimal digit, with its index).
pub uninterp spec fn hex_decode_error(s: Seq<char>) -> hex::FromHexError;

/// `hex::decode` of the text's bytes: fails exactly on text that is not an
/// even number of hexadecimal digits, with the error that text gives, and
/// otherwise gives the bytes it stands for.
#[verifier::external_body]
pub(crate) fn hex_decode(s: &str) -> (r: Result<Vec<u8>, hex::FromHexError>)
    ensures
        r is Ok <==> hex_decodable(s@),
        r matches Ok(v) ==> v@ == hex_bytes(s@),
        r matches Err(e) ==> e == hex_decode_error(s@),
{
    hex::decode(s)
}

/// `ConstantTimeEq::ct_eq` on byte slices, turned into a `bool`: whether
/// the two slices are equal.
#[verifier::external_body]
pub(crate) fn bytes_ct_eq(a: &[u8], b: &[u8]) -> (r: bool)
    ensures
        r == (a@ == b@),
{
    a.ct_eq(b).into()
}

/// Hexadecimal text consists of ASCII hexadecimal digits, two per byte, so
/// it takes one byte per character in UTF-8.
pub proof fn lemma_hex_text_shape(bytes: Seq<u8>)
    ensures
        hex_text(bytes).len() == 2 * bytes.len(),
        all_hex_digits(hex_text(bytes)),
        vstd::utf8::is_ascii_chars(hex_text(bytes)),
        utf8_len(hex_text(bytes)) == 2 * bytes.len(),
{
    let h = hex_text(bytes);
    assert forall|i: int| 0 <= i < h.len() implies is_hex_digit(#[trigger] h[i]) && '\0' <= h[i]
        <= '\u{7f}' by {
        let n = if i % 2 == 0 {
            bytes[i / 2] as int / 16
        } else {
            bytes[i / 2] as int % 16
        };
        assert(0 <= n < 16);
        assert(h[i] == hex_char(n));
    }
    vstd::utf8::is_ascii_chars_encode_utf8(h);
}

/// Decoding hexadecimal text gives back the bytes it was made from.
pub proof fn lemma_hex_roundtrip(bytes: Seq<u8>)
    ensures
        hex_decodable(hex_text(bytes)),
        hex_bytes(hex_text(bytes)) == bytes,
{
    lemma_hex_text_shape(bytes);
    let h = hex_text(bytes);
    assert forall|i: int| 0 <= i < bytes.len() implies #[trigger] hex_bytes(h)[i] == bytes[i] by {
        let b = bytes[i] as int;
        assert(h[2 * i] == hex_char(b / 16));
        assert(h[2 * i + 1] == hex_char(b % 16));
        assert(hex_value(hex_char(b / 16)) == b / 16);
        assert(hex_value(hex_char(b % 16)) == b % 16);
    }
    assert(hex_bytes(h) =~= bytes);
}

} // verus!
