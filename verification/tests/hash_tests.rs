use atlas_common::hash::{
    calculate_hash, calculate_hash_with_algorithm, combine_hashes, combine_hashes_with_algorithm,
    detect_hash_algorithm, get_hash_length, validate_hash_format, verify_hash,
    verify_hash_with_algorithm, HashAlgorithm, HashBuilder, Hasher,
};
use atlas_common::Error;

#[test]
fn test_hash_algorithms() {
    let data = b"test data for hashing";

    let sha256 = calculate_hash_with_algorithm(data, &HashAlgorithm::Sha256);
    assert_eq!(sha256.len(), 64);

    let sha384 = calculate_hash_with_algorithm(data, &HashAlgorithm::Sha384);
    assert_eq!(sha384.len(), 96);

    let sha512 = calculate_hash_with_algorithm(data, &HashAlgorithm::Sha512);
    assert_eq!(sha512.len(), 128);

    assert_ne!(sha256, sha384);
    assert_ne!(sha384, sha512);
    assert_ne!(sha256, sha512);
}

#[test]
fn test_hash_verification() {
    let data = b"important data";
    let hash = calculate_hash(data);

    assert!(verify_hash(data, &hash));
    assert!(!verify_hash(b"different data", &hash));

    let sha256_hash = calculate_hash_with_algorithm(data, &HashAlgorithm::Sha256);
    assert!(verify_hash_with_algorithm(
        data,
        &sha256_hash,
        &HashAlgorithm::Sha256
    ));
    assert!(!verify_hash_with_algorithm(
        data,
        &sha256_hash,
        &HashAlgorithm::Sha384
    ));
}

#[test]
fn test_hash_builder() {
    let mut builder = HashBuilder::new(HashAlgorithm::Sha256);
    builder.update(b"part1");
    builder.update(b"part2");
    builder.update(b"part3");
    let hash = builder.finalize();

    let direct_hash = calculate_hash_with_algorithm(b"part1part2part3", &HashAlgorithm::Sha256);
    assert_eq!(hash, direct_hash);
}

#[test]
fn test_hasher_trait() {
    let data = "test string";
    let hash1 = data.hash(HashAlgorithm::Sha256);
    let hash2 = data.to_string().hash(HashAlgorithm::Sha256);
    let hash3 = data.as_bytes().hash(HashAlgorithm::Sha256);

    assert_eq!(hash1, hash2);
    assert_eq!(hash2, hash3);
}

#[test]
fn hash_tests_test_combine_hashes() {
    let hash1 = calculate_hash(b"data1");
    let hash2 = calculate_hash(b"data2");
    let hash3 = calculate_hash(b"data3");

    let combined12 = combine_hashes(&[&hash1, &hash2]).unwrap();
    let combined21 = combine_hashes(&[&hash2, &hash1]).unwrap();
    let combined123 = combine_hashes(&[&hash1, &hash2, &hash3]).unwrap();

    assert_ne!(combined12, combined21);
    assert_ne!(combined12, combined123);
}

#[test]
fn test_hash_algorithm_detection() {
    let sha256_hash = "a".repeat(64);
    let sha384_hash = "b".repeat(96);
    let sha512_hash = "c".repeat(128);

    assert_eq!(detect_hash_algorithm(&sha256_hash), HashAlgorithm::Sha256);
    assert_eq!(detect_hash_algorithm(&sha384_hash), HashAlgorithm::Sha384);
    assert_eq!(detect_hash_algorithm(&sha512_hash), HashAlgorithm::Sha512);

    let invalid = "d".repeat(32);
    assert_eq!(detect_hash_algorithm(&invalid), HashAlgorithm::Sha384);
}

#[test]
fn test_hash_format_validation() {
    assert!(validate_hash_format(&"a".repeat(64)).is_ok());
    assert!(validate_hash_format(&"0123456789abcdef".repeat(4)).is_ok());
    assert!(validate_hash_format(&"ABCDEF".repeat(16)).is_ok());

    assert!(validate_hash_format(&"a".repeat(32)).is_err());
    assert!(validate_hash_format(&"a".repeat(65)).is_err());

    assert!(validate_hash_format(&format!("{}g", "a".repeat(63))).is_err());
    assert!(validate_hash_format(&format!("{}!", "a".repeat(95))).is_err());
}

#[test]
fn test_hash_length() {
    assert_eq!(get_hash_length(&HashAlgorithm::Sha256), 64);
    assert_eq!(get_hash_length(&HashAlgorithm::Sha384), 96);
    assert_eq!(get_hash_length(&HashAlgorithm::Sha512), 128);
}

#[test]
fn test_algorithm_properties() {
    assert_eq!(HashAlgorithm::Sha256.output_size(), 32);
    assert_eq!(HashAlgorithm::Sha256.hex_length(), 64);
    assert_eq!(HashAlgorithm::Sha256.as_str(), "sha256");

    let hash = "a".repeat(64);
    assert!(HashAlgorithm::Sha256.validate_hash(&hash));
    assert!(!HashAlgorithm::Sha384.validate_hash(&hash));
}

#[test]
fn known_digests_of_abc() {
    assert_eq!(
        calculate_hash_with_algorithm(b"abc", &HashAlgorithm::Sha256),
        "ba7816bf8f01cfea414140de5dae2223b00361a396177a9cb410ff61f20015ad"
    );
    assert_eq!(
        calculate_hash(b"abc"),
        "cb00753f45a35e8bb5a03d699ac65007272c32ab0eded1631a8b605a43ff5bed8086072ba1e7cc2358baeca134c825a7"
    );
    assert_eq!(
        calculate_hash_with_algorithm(b"", &HashAlgorithm::Sha512),
        "cf83e1357eefb8bdf1542850d66d8007d620e4050b5715dc83f4a921d36ce9ce47d0d13c5d85f2b0ff8318d2877eec2f63b931bd47417a81a538327af927da3e"
    );
}

#[test]
fn calculated_hashes_verify_and_validate_for_every_algorithm() {
    let data = b"law on concrete values";
    for alg in [HashAlgorithm::Sha256, HashAlgorithm::Sha384, HashAlgorithm::Sha512] {
        let hash = calculate_hash_with_algorithm(data, &alg);
        assert!(verify_hash(data, &hash));
        assert_eq!(detect_hash_algorithm(&hash), alg);
        assert!(validate_hash_format(&hash).is_ok());
        assert_eq!(hash.len(), alg.hex_length());
    }
}

#[test]
fn hash_builder_matches_one_shot_hash_for_every_algorithm() {
    for alg in [HashAlgorithm::Sha256, HashAlgorithm::Sha384, HashAlgorithm::Sha512] {
        let mut builder = HashBuilder::new(alg);
        assert_eq!(builder.algorithm(), alg);
        builder.update(b"");
        builder.update(b"hello ");
        builder.update(b"world");
        assert_eq!(builder.finalize(), calculate_hash_with_algorithm(b"hello world", &alg));
    }
}

#[test]
fn hash_default_uses_sha384() {
    assert_eq!("x".hash_default(), calculate_hash(b"x"));
}

#[test]
fn combine_hashes_hashes_the_decoded_bytes() {
    let combined = combine_hashes_with_algorithm(&["00ff", "10"], &HashAlgorithm::Sha256).unwrap();
    assert_eq!(
        combined,
        calculate_hash_with_algorithm(&[0x00, 0xff, 0x10], &HashAlgorithm::Sha256)
    );
    let empty = combine_hashes(&[]).unwrap();
    assert_eq!(empty, calculate_hash(b""));
}

#[test]
fn combine_hashes_reports_the_first_undecodable_hash() {
    match combine_hashes(&["00", "abc", "zz"]) {
        Err(Error::HexDecode(e)) => assert_eq!(e, hex::FromHexError::OddLength),
        _ => panic!("expected a hex decode error"),
    }
    match combine_hashes(&["00", "0z", "abc"]) {
        Err(Error::HexDecode(e)) => {
            assert_eq!(e, hex::FromHexError::InvalidHexCharacter { c: 'z', index: 1 })
        }
        _ => panic!("expected a hex decode error"),
    }
}

#[test]
fn combine_hashes_rejects_text_that_is_not_hex() {
    assert!(matches!(combine_hashes(&["abc"]), Err(Error::HexDecode(_))));
    assert!(matches!(combine_hashes(&["zz"]), Err(Error::HexDecode(_))));
    assert!(matches!(
        combine_hashes(&[&calculate_hash(b"a"), "0g"]),
        Err(Error::HexDecode(_))
    ));
}

#[test]
fn validate_hash_format_messages() {
    match validate_hash_format("xyz") {
        Err(Error::Validation(m)) => assert_eq!(m, "Invalid hash: not hexadecimal"),
        _ => panic!("expected a validation error"),
    }
    match validate_hash_format(&"a".repeat(65)) {
        Err(Error::Validation(m)) => {
            assert_eq!(m, "Invalid hash length: 65 (expected 64, 96, or 128)")
        }
        _ => panic!("expected a validation error"),
    }
    match validate_hash_format("") {
        Err(Error::Validation(m)) => {
            assert_eq!(m, "Invalid hash length: 0 (expected 64, 96, or 128)")
        }
        _ => panic!("expected a validation error"),
    }
}

#[test]
fn verify_hash_is_case_sensitive() {
    let hash = calculate_hash(b"data");
    assert!(!verify_hash(b"data", &hash.to_uppercase()));
    assert!(!verify_hash(b"data", ""));
}

#[test]
fn algorithm_names_parse_ignoring_case() {
    assert_eq!("sha256".parse::<HashAlgorithm>().unwrap(), HashAlgorithm::Sha256);
    assert_eq!("SHA-384".parse::<HashAlgorithm>().unwrap(), HashAlgorithm::Sha384);
    assert_eq!("Sha512".parse::<HashAlgorithm>().unwrap(), HashAlgorithm::Sha512);
    for alg in [HashAlgorithm::Sha256, HashAlgorithm::Sha384, HashAlgorithm::Sha512] {
        assert_eq!(HashAlgorithm::from_name(alg.as_str()).unwrap(), alg);
    }
    match "md5".parse::<HashAlgorithm>() {
        Err(Error::InvalidFormat(m)) => {
            assert_eq!(m, "Unknown hash algorithm: md5. Supported: sha256, sha384, sha512")
        }
        _ => panic!("expected an invalid format error"),
    }
    assert_eq!(HashAlgorithm::default(), HashAlgorithm::Sha384);
}

#[test]
fn incremental_hashing_equals_one_shot_hashing() {
    for alg in [HashAlgorithm::Sha256, HashAlgorithm::Sha384, HashAlgorithm::Sha512] {
        assert_eq!(
            HashBuilder::new(alg).finalize(),
            calculate_hash_with_algorithm(b"", &alg)
        );
        let chunks: Vec<Vec<u8>> = (0u8..40).map(|i| vec![i; i as usize]).collect();
        let mut builder = HashBuilder::new(alg);
        for c in &chunks {
            builder.update(c);
        }
        assert_eq!(
            builder.finalize(),
            calculate_hash_with_algorithm(&chunks.concat(), &alg)
        );
    }
}
