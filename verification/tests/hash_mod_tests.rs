use atlas_common::hash::{calculate_hash, combine_hashes, detect_hash_algorithm, verify_hash, HashAlgorithm};

#[test]
fn test_calculate_hash() {
    let data = b"test data";
    let hash = calculate_hash(data);
    assert_eq!(hash.len(), 96);
}

#[test]
fn test_verify_hash() {
    let data = b"test data";
    let hash = calculate_hash(data);
    assert!(verify_hash(data, &hash));
    assert!(!verify_hash(b"different data", &hash));
}

#[test]
fn mod_test_combine_hashes() {
    let hash1 = calculate_hash(b"data1");
    let hash2 = calculate_hash(b"data2");

    let combined = combine_hashes(&[&hash1, &hash2]).unwrap();
    assert_eq!(combined.len(), 96);

    let combined_reversed = combine_hashes(&[&hash2, &hash1]).unwrap();
    assert_ne!(combined, combined_reversed);
}

#[test]
fn test_detect_algorithm() {
    let sha256 = "a".repeat(64);
    let sha384 = "b".repeat(96);
    let sha512 = "c".repeat(128);

    assert_eq!(detect_hash_algorithm(&sha256), HashAlgorithm::Sha256);
    assert_eq!(detect_hash_algorithm(&sha384), HashAlgorithm::Sha384);
    assert_eq!(detect_hash_algorithm(&sha512), HashAlgorithm::Sha512);
}
