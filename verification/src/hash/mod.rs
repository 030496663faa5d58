//! Cryptographic hashing: SHA-256/384/512 digests as hexadecimal text,
//! verification with constant-time comparison, combination of hashes and
//! hash format validation.
pub mod algorithms;
pub mod digest;

pub use algorithms::{
    calculate_hash_optimized, get_hardware_capabilities, BatchHasher, CpuProbe, CpuVendor,
    HardwareCapabilities, HashAlgorithm, HashBuilder, Hasher, TargetArch,
};

use vstd::prelude::*;
use crate::error::{Error, Result};
use crate::text::{all_hex, all_hex_digits, byte_len, decimal_text, decimal_text_of, utf8_len};
use digest::{lemma_hex_roundtrip, lemma_hex_text_shape};
use algorithms::{digest_len, hex_len};
use digest::{
    bytes_ct_eq, hex_bytes, hex_decodable, hex_decode, hex_decode_error, hex_encode, hex_text,
    sha256, sha256_digest,
    sha384, sha384_digest, sha512, sha512_digest,
};

verus! {

broadcast use vstd::array::group_array_axioms;

/// The digest of `data` under `a`.
pub open spec fn digest_of(a: HashAlgorithm, data: Seq<u8>) -> Seq<u8> {
    match a {
        HashAlgorithm::Sha256 => sha256(data)@,
        HashAlgorithm::Sha384 => sha384(data)@,
        HashAlgorithm::Sha512 => sha512(data)@,
    }
}

/// The hash of `data` under `a`, as lowercase hexadecimal text.
pub open spec fn hash_text_of(a: HashAlgorithm, data: Seq<u8>) -> Seq<char> {
    hex_text(digest_of(a, data))
}

/// A digest has the algorithm's length.
pub proof fn lemma_digest_len(a: HashAlgorithm, data: Seq<u8>)
    ensures
        digest_of(a, data).len() == digest_len(a),
{
    match a {
        HashAlgorithm::Sha256 => vstd::array::array_len_matches_n(&sha256(data)),
        HashAlgorithm::Sha384 => vstd::array::array_len_matches_n(&sha384(data)),
        HashAlgorithm::Sha512 => vstd::array::array_len_matches_n(&sha512(data)),
    }
}

/// The digest of `data` under `algorithm`, as bytes.
fn digest_bytes(data: &[u8], algorithm: &HashAlgorithm) -> (r: Vec<u8>)
    ensures
        r@ == digest_of(*algorithm, data@),
{
    match algorithm {
        HashAlgorithm::Sha256 => sha256_digest(data),
        HashAlgorithm::Sha384 => sha384_digest(data),
        HashAlgorithm::Sha512 => sha512_digest(data),
    }
}

/// Calculates the hash of `data` with the default algorithm, SHA-384.
pub fn calculate_hash(data: &[u8]) -> (r: String)
    ensures
        r@ == hash_text_of(HashAlgorithm::Sha384, data@),
        r@.len() == 96,
{
    calculate_hash_with_algorithm(data, &HashAlgorithm::Sha384)
}

/// Calculates the hash of `data` with `algorithm`, as lowercase hexadecimal
/// text of the algorithm's hexadecimal length.
pub fn calculate_hash_with_algorithm(data: &[u8], algorithm: &HashAlgorithm) -> (r: String)
    ensures
        r@ == hash_text_of(*algorithm, data@),
        r@.len() == hex_len(*algorithm),
{
    proof {
        lemma_digest_len(*algorithm, data@);
    }
    let d = digest_bytes(data, algorithm);
    hex_encode(d.as_slice())
}

/// The algorithm that a hash of `n` bytes was made with: 64 for SHA-256,
/// 96 for SHA-384, 128 for SHA-512, and SHA-384 for any other length.
pub open spec fn detected_algorithm(n: nat) -> HashAlgorithm {
    if n == 64 {
        HashAlgorithm::Sha256
    } else if n == 128 {
        HashAlgorithm::Sha512
    } else {
        HashAlgorithm::Sha384
    }
}

/// Detects the hash algorithm from the length of a hash string.
pub fn detect_hash_algorithm(hash: &str) -> (r: HashAlgorithm)
    ensures
        r == detected_algorithm(utf8_len(hash@)),
{
    match byte_len(hash) {
        64 => HashAlgorithm::Sha256,
        96 => HashAlgorithm::Sha384,
        128 => HashAlgorithm::Sha512,
        _ => HashAlgorithm::Sha384,
    }
}

/// The expected length of a hash in hexadecimal characters.
pub fn get_hash_length(algorithm: &HashAlgorithm) -> (r: usize)
    ensures
        r == hex_len(*algorithm),
{
    match algorithm {
        HashAlgorithm::Sha256 => 64,
        HashAlgorithm::Sha384 => 96,
        HashAlgorithm::Sha512 => 128,
    }
}

/// Compares two strings in time that does not depend on where they differ.
pub fn constant_time_compare(a: &str, b: &str) -> (r: bool)
    ensures
        r == (a@ == b@),
{
    if byte_len(a) != byte_len(b) {
        return false;
    }
    let r = bytes_ct_eq(a.as_bytes(), b.as_bytes());
    proof {
        vstd::utf8::encode_utf8_decode_utf8(a@);
        vstd::utf8::encode_utf8_decode_utf8(b@);
    }
    r
}

/// Verifies `data` against an expected hash made with `algorithm`, in
/// constant time.
pub fn verify_hash_with_algorithm(data: &[u8], expected_hash: &str, algorithm: &HashAlgorithm) -> (r:
    bool)
    ensures
        r == (hash_text_of(*algorithm, data@) == expected_hash@),
{
    let calculated = calculate_hash_with_algorithm(data, algorithm);
    constant_time_compare(calculated.as_str(), expected_hash)
}

/// Verifies `data` against an expected hash, taking the algorithm from the
/// hash's length.
pub fn verify_hash(data: &[u8], expected_hash: &str) -> (r: bool)
    ensures
        r == (hash_text_of(detected_algorithm(utf8_len(expected_hash@)), data@)
            == expected_hash@),
{
    let algorithm = detect_hash_algorithm(expected_hash);
    verify_hash_with_algorithm(data, expected_hash, &algorithm)
}

/// The lengths a hash may have: 64, 96 or 128 characters.
pub open spec fn valid_hash_len(n: nat) -> bool {
    n == 64 || n == 96 || n == 128
}

/// The message for a hash with other characters than hexadecimal digits.
pub open spec fn not_hex_message() -> Seq<char> {
    "Invalid hash: not hexadecimal"@
}

/// The message for a hash of `n` characters where `n` is no valid length.
pub open spec fn hash_length_message(n: nat) -> Seq<char> {
    "Invalid hash length: "@ + decimal_text_of(n) + " (expected 64, 96, or 128)"@
}

/// Validates the format of a hash: hexadecimal digits only, and a length
/// of 64, 96 or 128.
pub fn validate_hash_format(hash: &str) -> (r: Result<()>)
    ensures
        r is Ok <==> all_hex_digits(hash@) && valid_hash_len(utf8_len(hash@)),
        !all_hex_digits(hash@) ==> (r matches Err(Error::Validation(m)) && m@ == not_hex_message()),
        all_hex_digits(hash@) && !valid_hash_len(utf8_len(hash@)) ==> (r matches Err(
            Error::Validation(m),
        ) && m@ == hash_length_message(utf8_len(hash@))),
{
    if !all_hex(hash) {
        return Err(Error::Validation(String::from_str("Invalid hash: not hexadecimal")));
    }
    let n = byte_len(hash);
    if n != 64 && n != 96 && n != 128 {
        let mut m = String::from_str("Invalid hash length: ");
        let digits = decimal_text(n as u64);
        m.append(digits.as_str());
        m.append(" (expected 64, 96, or 128)");
        return Err(Error::Validation(m));
    }
    Ok(())
}

/// The views of a sequence of string slices.
pub open spec fn str_views(v: Seq<&str>) -> Seq<Seq<char>> {
    v.map_values(|h: &str| h@)
}

/// Every text decodes as hexadecimal.
pub open spec fn all_decodable(hs: Seq<Seq<char>>) -> bool {
    forall|i: int| 0 <= i < hs.len() ==> hex_decodable(#[trigger] hs[i])
}

/// The bytes of the decoded texts, one after the other.
pub open spec fn decoded_concat(hs: Seq<Seq<char>>) -> Seq<u8>
    decreases hs.len(),
{
    if hs.len() == 0 {
        Seq::empty()
    } else {
        decoded_concat(hs.drop_last()) + hex_bytes(hs.last())
    }
}

/// `e` is the error of the first text that does not decode: every text
/// before it decodes, and `e` is what decoding it reports.
pub open spec fn first_decode_error(hs: Seq<Seq<char>>, e: Error) -> bool {
    exists|i: int|
        0 <= i < hs.len() && all_decodable(hs.take(i)) && !hex_decodable(#[trigger] hs[i])
            && e == Error::HexDecode(hex_decode_error(hs[i]))
}

/// Combines hashes into one with the default algorithm, SHA-384.
pub fn combine_hashes(hashes: &[&str]) -> (r: Result<String>)
    ensures
        r is Ok <==> all_decodable(str_views(hashes@)),
        r matches Ok(s) ==> s@ == hash_text_of(
            HashAlgorithm::Sha384,
            decoded_concat(str_views(hashes@)),
        ),
        r matches Err(e) ==> first_decode_error(str_views(hashes@), e),
{
    combine_hashes_with_algorithm(hashes, &HashAlgorithm::Sha384)
}

/// Combines hashes into one: decodes each from hexadecimal, concatenates
/// the bytes in order and hashes the result with `algorithm`.
pub fn combine_hashes_with_algorithm(hashes: &[&str], algorithm: &HashAlgorithm) -> (r: Result<
    String,
>)
    ensures
        r is Ok <==> all_decodable(str_views(hashes@)),
        r matches Ok(s) ==> s@ == hash_text_of(*algorithm, decoded_concat(str_views(hashes@))),
        r matches Err(e) ==> first_decode_error(str_views(hashes@), e),
{
    let ghost hs = str_views(hashes@);
    let mut combined: Vec<u8> = Vec::new();
    let mut i: usize = 0;
    while i < hashes.len()
        invariant
            hs == str_views(hashes@),
            i <= hashes@.len(),
            all_decodable(hs.take(i as int)),
            combined@ == decoded_concat(hs.take(i as int)),
        decreases hashes@.len() - i,
    {
        assert(hs.take(i + 1).drop_last() =~= hs.take(i as int));
        match hex_decode(hashes[i]) {
            Ok(bytes) => {
                combined.extend_from_slice(bytes.as_slice());
                assert(combined@ =~= decoded_concat(hs.take(i as int)) + bytes@);
                assert(all_decodable(hs.take(i + 1))) by {
                    assert forall|j: int| 0 <= j < i + 1 implies hex_decodable(
                        #[trigger] hs.take(i + 1)[j],
                    ) by {
                        if j < i {
                            assert(hs.take(i + 1)[j] == hs.take(i as int)[j]);
                        }
                    }
                }
            },
            Err(e) => {
                assert(!hex_decodable(hs[i as int]));
                assert(first_decode_error(hs, Error::HexDecode(e)));
                return Err(Error::HexDecode(e));
            },
        }
        i += 1;
    }
    assert(hs.take(hashes@.len() as int) =~= hs);
    Ok(calculate_hash_with_algorithm(combined.as_slice(), algorithm))
}

/// A calculated hash is hexadecimal text of the algorithm's length, in
/// characters and in UTF-8 bytes alike.
pub proof fn lemma_hash_text_shape(a: HashAlgorithm, data: Seq<u8>)
    ensures
        hash_text_of(a, data).len() == hex_len(a),
        utf8_len(hash_text_of(a, data)) == hex_len(a),
        all_hex_digits(hash_text_of(a, data)),
        hex_decodable(hash_text_of(a, data)),
        hex_bytes(hash_text_of(a, data)) == digest_of(a, data),
{
    lemma_digest_len(a, data);
    lemma_hex_text_shape(digest_of(a, data));
    lemma_hex_roundtrip(digest_of(a, data));
}

/// The algorithm that made a hash is recognised from the hash's length.
pub proof fn detected_algorithm_of_calculated_hash(a: HashAlgorithm, data: Seq<u8>)
    ensures
        detected_algorithm(utf8_len(hash_text_of(a, data))) == a,
{
    lemma_hash_text_shape(a, data);
}

/// Data verifies against its own hash, whichever algorithm made it:
/// `verify_hash(data, calculate_hash_with_algorithm(data, a))` holds.
pub proof fn calculated_hash_verifies(a: HashAlgorithm, data: Seq<u8>)
    ensures
        hash_text_of(detected_algorithm(utf8_len(hash_text_of(a, data))), data) == hash_text_of(
            a,
            data,
        ),
{
    detected_algorithm_of_calculated_hash(a, data);
}

/// A calculated hash passes `validate_hash_format`.
pub proof fn calculated_hash_is_well_formed(a: HashAlgorithm, data: Seq<u8>)
    ensures
        all_hex_digits(hash_text_of(a, data)),
        valid_hash_len(utf8_len(hash_text_of(a, data))),
{
    lemma_hash_text_shape(a, data);
}

/// A hash that `HashAlgorithm::validate_hash` accepts for `a` passes
/// `validate_hash_format`, and `detect_hash_algorithm` names `a` for it.
pub proof fn validated_hash_is_well_formed(a: HashAlgorithm, hash: Seq<char>)
    requires
        utf8_len(hash) == hex_len(a),
        all_hex_digits(hash),
    ensures
        valid_hash_len(utf8_len(hash)),
        detected_algorithm(utf8_len(hash)) == a,
{
}

/// Hashes made with different algorithms differ, whatever was hashed; so a
/// hash never verifies under another algorithm than the one that made it.
pub proof fn hashes_of_different_algorithms_differ(
    a: HashAlgorithm,
    b: HashAlgorithm,
    x: Seq<u8>,
    y: Seq<u8>,
)
    requires
        a != b,
    ensures
        hash_text_of(a, x) != hash_text_of(b, y),
{
    lemma_hash_text_shape(a, x);
    lemma_hash_text_shape(b, y);
}

/// Calculated hashes always combine: each decodes to its digest, so
/// `combine_hashes` succeeds on any list of them and hashes their digests
/// one after the other.
pub proof fn calculated_hashes_combine(
    algorithms: Seq<HashAlgorithm>,
    data: Seq<Seq<u8>>,
    hashes: Seq<Seq<char>>,
)
    requires
        algorithms.len() == hashes.len(),
        data.len() == hashes.len(),
        forall|i: int|
            0 <= i < hashes.len() ==> #[trigger] hashes[i] == hash_text_of(algorithms[i], data[i]),
    ensures
        all_decodable(hashes),
        forall|i: int|
            0 <= i < hashes.len() ==> #[trigger] hex_bytes(hashes[i]) == digest_of(
                algorithms[i],
                data[i],
            ),
{
    assert forall|i: int| 0 <= i < hashes.len() implies hex_decodable(#[trigger] hashes[i])
        && hex_bytes(hashes[i]) == digest_of(algorithms[i], data[i]) by {
        lemma_hash_text_shape(algorithms[i], data[i]);
    }
}

} // verus!
