use atlas_common::c2pa::{DateTimeWrapper, ManifestMetadata, ManifestType};
use atlas_common::validation::{
    ensure_c2pa_urn, extract_uuid_from_urn, validate_c2pa_urn, validate_manifest_hash,
    validate_manifest_id, validate_manifest_metadata,
};
use atlas_common::Error;

fn created_at() -> String {
    DateTimeWrapper::now_utc().to_rfc3339()
}

#[test]
fn test_validate_manifest_id() {
    assert!(validate_manifest_id("urn:c2pa:123e4567-e89b-12d3-a456-426614174000").is_ok());
    assert!(validate_manifest_id("123e4567-e89b-12d3-a456-426614174000").is_ok());
    assert!(validate_manifest_id("my-manifest-123").is_ok());
    assert!(validate_manifest_id("manifest_456").is_ok());

    assert!(
        validate_manifest_id("urn:c2pa:123e4567-e89b-12d3-a456-426614174000:adobe:2_1").is_ok()
    );

    assert!(validate_manifest_id("").is_err());
    assert!(validate_manifest_id("urn:c2pa:invalid-uuid").is_err());
    assert!(validate_manifest_id("manifest with spaces").is_err());
    assert!(validate_manifest_id("manifest#123").is_err());

    assert!(
        validate_manifest_id("urn:c2pa:123e4567-e89b-12d3-a456-426614174000:adobe:invalid")
            .is_err()
    );
}

#[test]
fn test_validate_manifest_hash() {
    assert!(validate_manifest_hash(&"a".repeat(64)).is_ok());
    assert!(validate_manifest_hash(&"b".repeat(96)).is_ok());
    assert!(validate_manifest_hash(&"c".repeat(128)).is_ok());

    assert!(validate_manifest_hash(&"x".repeat(32)).is_err());
    assert!(validate_manifest_hash(&"g".repeat(64)).is_err());
    assert!(validate_manifest_hash("not-a-hash").is_err());
}

#[test]
fn test_ensure_c2pa_urn() {
    let urn = "urn:c2pa:123e4567-e89b-12d3-a456-426614174000";
    assert_eq!(ensure_c2pa_urn(urn), urn);

    let uuid = "123e4567-e89b-12d3-a456-426614174000";
    assert_eq!(ensure_c2pa_urn(uuid), format!("urn:c2pa:{}", uuid));

    let random = "my-custom-id";
    let result = ensure_c2pa_urn(random);
    assert!(result.starts_with("urn:c2pa:"));
    assert_ne!(result, format!("urn:c2pa:{}", random));
}

#[test]
fn test_extract_uuid_from_urn() {
    let uuid_str = "123e4567-e89b-12d3-a456-426614174000";
    let urn = format!("urn:c2pa:{}", uuid_str);

    let extracted = extract_uuid_from_urn(&urn).unwrap();
    assert_eq!(extracted.to_string(), uuid_str);

    let urn_with_gen = format!("urn:c2pa:{}:adobe", uuid_str);
    let extracted = extract_uuid_from_urn(&urn_with_gen).unwrap();
    assert_eq!(extracted.to_string(), uuid_str);

    assert!(extract_uuid_from_urn("not-a-urn").is_err());
    assert!(extract_uuid_from_urn("urn:c2pa:not-a-uuid").is_err());
}

#[test]
fn test_validate_c2pa_urn() {
    assert!(validate_c2pa_urn("urn:c2pa:123e4567-e89b-12d3-a456-426614174000").is_ok());
    assert!(validate_c2pa_urn("urn:c2pa:123e4567-e89b-12d3-a456-426614174000:adobe").is_ok());
    assert!(validate_c2pa_urn("urn:c2pa:123e4567-e89b-12d3-a456-426614174000:adobe:2_1").is_ok());

    assert!(validate_c2pa_urn("not-a-urn").is_err());
    assert!(validate_c2pa_urn("urn:wrong:123e4567-e89b-12d3-a456-426614174000").is_err());
    assert!(validate_c2pa_urn("urn:c2pa:not-a-uuid").is_err());

    assert!(
        validate_c2pa_urn("urn:c2pa:123e4567-e89b-12d3-a456-426614174000:adobe:invalid").is_err()
    );
    assert!(validate_c2pa_urn("urn:c2pa:123e4567-e89b-12d3-a456-426614174000:adobe:2").is_err());
    assert!(validate_c2pa_urn("urn:c2pa:123e4567-e89b-12d3-a456-426614174000:adobe:a_b").is_err());
}

#[test]
fn test_validate_manifest_metadata() {
    let valid_metadata = ManifestMetadata {
        id: "urn:c2pa:123e4567-e89b-12d3-a456-426614174000".to_string(),
        name: "Test Manifest".to_string(),
        manifest_type: ManifestType::Model,
        created_at: created_at(),
        hash: Some("a".repeat(96)),
        size: Some(1024),
        version: Some("1.0.0".to_string()),
    };

    assert!(validate_manifest_metadata(&valid_metadata).is_ok());

    let mut invalid = valid_metadata.clone();
    invalid.id = "".to_string();
    assert!(validate_manifest_metadata(&invalid).is_err());

    let mut invalid = valid_metadata.clone();
    invalid.name = "".to_string();
    assert!(validate_manifest_metadata(&invalid).is_err());

    let mut invalid = valid_metadata.clone();
    invalid.hash = Some("not-a-hash".to_string());
    assert!(validate_manifest_metadata(&invalid).is_err());

    let minimal = ManifestMetadata {
        id: uuid::Uuid::new_v4().to_string(),
        name: "Minimal".to_string(),
        manifest_type: ManifestType::Dataset,
        created_at: created_at(),
        hash: None,
        size: None,
        version: None,
    };

    assert!(validate_manifest_metadata(&minimal).is_ok());
}

fn validation_message<T>(r: atlas_common::Result<T>) -> String {
    match r {
        Err(Error::Validation(m)) => m,
        _ => panic!("expected a validation error"),
    }
}

#[test]
fn validation_error_messages() {
    assert_eq!(validation_message(validate_manifest_id("")), "Manifest ID cannot be empty");
    assert_eq!(
        validation_message(validate_manifest_id("a b")),
        "Invalid manifest ID format: 'a b'"
    );
    assert_eq!(
        validation_message(validate_manifest_id("urn:c2pa:xyz")),
        "Invalid UUID in C2PA URN: 'xyz'"
    );
    assert_eq!(
        validation_message(validate_manifest_id(
            "urn:c2pa:123e4567-e89b-12d3-a456-426614174000:g:1_2_3"
        )),
        "Invalid version_reason format"
    );
    assert_eq!(
        validation_message(validate_manifest_id(
            "urn:c2pa:123e4567-e89b-12d3-a456-426614174000:g:1_x"
        )),
        "Invalid version or reason code"
    );
    assert_eq!(
        validation_message(validate_c2pa_urn("urn:x")),
        "Invalid C2PA URN format: expected 'urn:c2pa:UUID', got 'urn:x'"
    );
    assert_eq!(
        validation_message(validate_c2pa_urn(
            "urn:c2pa:123e4567-e89b-12d3-a456-426614174000:g:2"
        )),
        "Invalid version_reason format in URN: expected 'version_reason', got '2'"
    );
    assert_eq!(
        validation_message(validate_c2pa_urn(
            "urn:c2pa:123e4567-e89b-12d3-a456-426614174000:g:x_1"
        )),
        "Invalid version number in URN: 'x'"
    );
    assert_eq!(
        validation_message(validate_c2pa_urn(
            "urn:c2pa:123e4567-e89b-12d3-a456-426614174000:g:1_4294967296"
        )),
        "Invalid reason code in URN: '4294967296'"
    );
    assert_eq!(
        validation_message(extract_uuid_from_urn("urn:c2pa")),
        "Invalid C2PA URN format: 'urn:c2pa'"
    );
    let m = validation_message(extract_uuid_from_urn("urn:c2pa:zz"));
    assert!(m.starts_with("Invalid UUID in C2PA URN 'urn:c2pa:zz': "));
    let mut no_name = ManifestMetadata {
        id: "ok".to_string(),
        name: String::new(),
        manifest_type: ManifestType::Unknown,
        created_at: created_at(),
        hash: None,
        size: None,
        version: None,
    };
    assert_eq!(
        validation_message(validate_manifest_metadata(&no_name)),
        "Manifest name cannot be empty"
    );
    no_name.name = "n".to_string();
    no_name.hash = Some("ab".to_string());
    assert_eq!(
        validation_message(validate_manifest_metadata(&no_name)),
        "Invalid hash length: 2 (expected 64, 96, or 128)"
    );
}

#[test]
fn ensured_urns_are_valid() {
    for id in ["my-custom-id", "", "123E4567-E89B-12D3-A456-426614174000", "x:y"] {
        let urn = ensure_c2pa_urn(id);
        assert!(validate_c2pa_urn(&urn).is_ok());
        assert!(validate_manifest_id(&urn).is_ok());
        assert!(extract_uuid_from_urn(&urn).is_ok());
    }
    // An uppercase UUID is accepted and written in lowercase.
    assert_eq!(
        ensure_c2pa_urn("123E4567-E89B-12D3-A456-426614174000"),
        "urn:c2pa:123e4567-e89b-12d3-a456-426614174000"
    );
    // Text that already starts with the prefix is kept, valid or not.
    assert_eq!(ensure_c2pa_urn("urn:c2pa:anything"), "urn:c2pa:anything");
}

#[test]
fn manifest_ids_accept_unicode_alphanumerics() {
    assert!(validate_manifest_id("modèle-1").is_ok());
    assert!(validate_manifest_id("データ_2").is_ok());
    assert!(validate_manifest_id("a.b").is_err());
}

#[test]
fn valid_c2pa_urns_are_valid_manifest_ids() {
    for urn in [
        "urn:c2pa:123e4567-e89b-12d3-a456-426614174000",
        "urn:c2pa:123e4567-e89b-12d3-a456-426614174000:",
        "urn:c2pa:123E4567-E89B-12D3-A456-426614174000:gen",
        "urn:c2pa:123e4567-e89b-12d3-a456-426614174000:gen:0_0:extra",
        "urn:c2pa:123e4567e89b12d3a456426614174000:gen:+7_4294967295",
    ] {
        assert!(validate_c2pa_urn(urn).is_ok(), "{}", urn);
        assert!(validate_manifest_id(urn).is_ok(), "{}", urn);
        assert!(extract_uuid_from_urn(urn).is_ok(), "{}", urn);
    }
}
