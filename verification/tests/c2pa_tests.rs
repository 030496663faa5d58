use atlas_common::c2pa::{
    determine_asset_type, determine_dataset_type, determine_format, determine_model_type,
    AssetKind, AssetType, DateTimeWrapper, ManifestId, ManifestType,
};
use atlas_common::validation::validate_c2pa_urn;
use atlas_common::Error;

#[test]
fn test_manifest_id_creation() {
    let id1 = ManifestId::new();
    let id2 = ManifestId::new();

    assert_ne!(id1.as_urn(), id2.as_urn());
    assert_ne!(id1.uuid(), id2.uuid());
    assert!(id1.as_urn().starts_with("urn:c2pa:"));
}

#[test]
fn test_manifest_id_from_urn() {
    let urn = "urn:c2pa:123e4567-e89b-12d3-a456-426614174000";
    let id = ManifestId::from_urn(urn).unwrap();

    assert_eq!(id.as_urn(), urn);
    assert_eq!(
        id.uuid().to_string(),
        "123e4567-e89b-12d3-a456-426614174000"
    );

    let urn_with_gen = "urn:c2pa:123e4567-e89b-12d3-a456-426614174000:adobe";
    let id_with_gen = ManifestId::from_urn(urn_with_gen).unwrap();
    assert_eq!(id_with_gen.as_urn(), urn_with_gen);

    let urn_with_version = "urn:c2pa:123e4567-e89b-12d3-a456-426614174000:adobe:2_1";
    let id_with_version = ManifestId::from_urn(urn_with_version).unwrap();
    assert_eq!(id_with_version.as_urn(), urn_with_version);
}

#[test]
fn test_manifest_id_versioning() {
    let id = ManifestId::new();
    let versioned = id.with_version(3, 2);

    assert!(versioned.as_urn().contains("3_2"));
    assert_eq!(versioned.uuid(), id.uuid());
}

#[test]
fn test_manifest_type() {
    assert_eq!(ManifestType::Dataset.as_str(), "dataset");
    assert_eq!(ManifestType::Model.as_str(), "model");
    assert_eq!(ManifestType::Software.as_str(), "software");
    assert_eq!(ManifestType::Evaluation.as_str(), "evaluation");
    assert_eq!(ManifestType::Unknown.as_str(), "unknown");

    assert_eq!(
        "dataset".parse::<ManifestType>().unwrap(),
        ManifestType::Dataset
    );
    assert_eq!(
        "MODEL".parse::<ManifestType>().unwrap(),
        ManifestType::Model
    );
    assert_eq!(
        "invalid".parse::<ManifestType>().unwrap(),
        ManifestType::Unknown
    );
}

#[test]
fn test_asset_type_determination() {
    assert_eq!(
        determine_asset_type("model.onnx", AssetKind::Model).unwrap(),
        AssetType::ModelOnnx
    );
    assert_eq!(
        determine_asset_type("model.pb", AssetKind::Model).unwrap(),
        AssetType::ModelTensorFlow
    );
    assert_eq!(
        determine_asset_type("model.pth", AssetKind::Model).unwrap(),
        AssetType::ModelPyTorch
    );

    assert_eq!(
        determine_asset_type("data.csv", AssetKind::Dataset).unwrap(),
        AssetType::Dataset
    );
    assert_eq!(
        determine_asset_type("data.tfrecord", AssetKind::Dataset).unwrap(),
        AssetType::DatasetTensorFlow
    );

    assert_eq!(
        determine_asset_type("script.py", AssetKind::Software).unwrap(),
        AssetType::Software
    );
}

#[test]
fn test_model_type_detection() {
    let test_cases = vec![
        ("model.pb", AssetType::ModelTensorFlow),
        ("model.savedmodel", AssetType::ModelTensorFlow),
        ("model.pt", AssetType::ModelPyTorch),
        ("model.pth", AssetType::ModelPyTorch),
        ("model.onnx", AssetType::ModelOnnx),
        ("model.bin", AssetType::ModelOpenVino),
        ("model.h5", AssetType::Model),
        ("model.keras", AssetType::Model),
        ("model.npy", AssetType::FormatNumpy),
        ("model.pkl", AssetType::FormatPickle),
        ("model.unknown", AssetType::Model),
    ];

    for (filename, expected) in test_cases {
        let result = determine_model_type(filename).unwrap();
        assert_eq!(result, expected, "Failed for {}", filename);
    }
}

#[test]
fn test_dataset_type_detection() {
    let test_cases = vec![
        ("data.csv", AssetType::Dataset),
        ("data.json", AssetType::Dataset),
        ("data.parquet", AssetType::Dataset),
        ("data.tfrecord", AssetType::DatasetTensorFlow),
        ("data.pt", AssetType::DatasetPyTorch),
        ("data.npy", AssetType::Dataset),
    ];

    for (filename, expected) in test_cases {
        let result = determine_dataset_type(filename).unwrap();
        assert_eq!(result, expected, "Failed for {}", filename);
    }
}

#[test]
fn test_format_determination() {
    assert_eq!(determine_format("model.onnx").unwrap(), "application/onnx");
    assert_eq!(determine_format("data.csv").unwrap(), "text/csv");
    assert_eq!(determine_format("config.json").unwrap(), "application/json");
    assert_eq!(determine_format("readme.txt").unwrap(), "text/plain");
    assert_eq!(determine_format("archive.zip").unwrap(), "application/zip");
    assert_eq!(
        determine_format("unknown.xyz").unwrap(),
        "application/octet-stream"
    );
}

#[test]
fn paths_without_extension_are_refused() {
    assert!(matches!(determine_model_type("models/model"), Err(Error::InvalidFormat(_))));
    assert!(matches!(determine_dataset_type(""), Err(Error::InvalidFormat(_))));
    assert!(matches!(
        determine_asset_type("archive", AssetKind::Dataset),
        Err(Error::InvalidFormat(_))
    ));
    assert_eq!(determine_format("Makefile").unwrap(), "application/octet-stream");
}

#[test]
fn extensions_come_from_the_file_name() {
    assert_eq!(determine_model_type("dir.v2/model.ONNX").unwrap(), AssetType::Model);
    assert_eq!(determine_model_type("dir/model.onnx/").unwrap(), AssetType::ModelOnnx);
    assert_eq!(determine_model_type("dir/archive.tar.pkl").unwrap(), AssetType::FormatPickle);
    assert!(determine_model_type("dir.v2/model").is_err());
    assert!(determine_model_type(".hidden").is_err());
}

#[test]
fn from_urn_reports_claim_generator_and_version_through_as_urn() {
    let bad = ManifestId::from_urn("urn:wrong:123e4567-e89b-12d3-a456-426614174000");
    match bad {
        Err(Error::InvalidFormat(m)) => assert_eq!(
            m,
            "Invalid C2PA URN format: urn:wrong:123e4567-e89b-12d3-a456-426614174000"
        ),
        _ => panic!("expected an invalid format error"),
    }
    assert!(matches!(
        ManifestId::from_urn("urn:c2pa:not-a-uuid"),
        Err(Error::InvalidFormat(_))
    ));
}

#[test]
fn versioned_urns_parse_back_and_validate() {
    let id = ManifestId::from_urn("urn:c2pa:123e4567-e89b-12d3-a456-426614174000:adobe").unwrap();
    let v = id.with_version(12, 0);
    assert_eq!(
        v.as_urn(),
        "urn:c2pa:123e4567-e89b-12d3-a456-426614174000:adobe:12_0"
    );
    let back = ManifestId::from_urn(v.as_urn()).unwrap();
    assert_eq!(back.uuid(), id.uuid());
    assert!(validate_c2pa_urn(v.as_urn()).is_ok());

    let fresh = ManifestId::new();
    let w = fresh.with_version(4294967295, 7);
    assert!(w.as_urn().ends_with(":unknown:4294967295_7"));
    assert!(validate_c2pa_urn(w.as_urn()).is_ok());
    assert!(validate_c2pa_urn(fresh.as_urn()).is_ok());
    assert_eq!(ManifestId::from_urn(w.as_urn()).unwrap().uuid(), fresh.uuid());
}

#[test]
fn manifest_type_names_round_trip() {
    for t in [
        ManifestType::Dataset,
        ManifestType::Model,
        ManifestType::Software,
        ManifestType::Evaluation,
        ManifestType::Unknown,
    ] {
        assert_eq!(t.as_str().parse::<ManifestType>().unwrap(), t);
        assert_eq!(t.as_str().to_uppercase().parse::<ManifestType>().unwrap(), t);
    }
}

#[test]
fn test_datetime_wrapper() {
    let dt = DateTimeWrapper::now_utc();

    dt.validate().unwrap();

    let rfc3339 = dt.to_rfc3339();
    assert!(rfc3339.contains('T'));
    assert!(rfc3339.contains('Z') || rfc3339.contains('+') || rfc3339.contains('-'));

    let display = dt.to_string();
    assert_eq!(display, rfc3339);
}

#[test]
fn datetime_parts_and_validation() {
    let epoch = DateTimeWrapper::from_parts(0, 0).unwrap();
    assert_eq!(epoch.to_rfc3339(), "1970-01-01T00:00:00Z");
    assert!(epoch.validate().is_ok());

    let noon = DateTimeWrapper::from_parts(1_546_344_000_000_000_000, 3600).unwrap();
    assert_eq!(noon.to_rfc3339(), "2019-01-01T13:00:00+01:00");
    assert_eq!(noon.unix_timestamp_nanos(), 1_546_344_000_000_000_000);
    assert_eq!(noon.offset_seconds(), 3600);
    // Equal instants are equal, whatever the offset.
    let same = DateTimeWrapper::from_parts(1_546_344_000_000_000_000, 0).unwrap();
    assert_eq!(noon, same);

    let before = DateTimeWrapper::from_parts(-1, 0).unwrap();
    match before.validate() {
        Err(atlas_common::Error::Time(m)) => assert_eq!(m, "Datetime must be after January 1, 1970"),
        _ => panic!("expected a time error"),
    }
    // One hour east of UTC, 00:30 UTC on 1970-01-01 is already 1970 locally.
    let east = DateTimeWrapper::from_parts(1_800_000_000_000, 3600).unwrap();
    assert!(east.validate().is_ok());
    // One hour west of UTC, it is still 1969 locally.
    let west = DateTimeWrapper::from_parts(1_800_000_000_000, -3600).unwrap();
    assert!(west.validate().is_err());

    let future = DateTimeWrapper::from_parts(253_402_300_799_000_000_000, 0).unwrap();
    match future.validate() {
        Err(atlas_common::Error::Time(m)) => assert_eq!(m, "Datetime cannot be in the future"),
        _ => panic!("expected a time error"),
    }
    let now = DateTimeWrapper::now_utc();
    assert!(future.validate_at(&now).is_err());
    assert!(epoch.validate_at(&now).is_ok());

    assert!(DateTimeWrapper::from_parts(253_402_300_800_000_000_000, 0).is_none());
    assert!(DateTimeWrapper::from_parts(253_402_300_799_000_000_000, 1).is_none());
    assert!(DateTimeWrapper::from_parts(0, 93_600).is_none());
    assert!(DateTimeWrapper::from_parts(-377_705_203_200_000_000_000, 0).is_some());
    assert!(DateTimeWrapper::from_parts(-377_705_203_200_000_000_001, 0).is_none());
    assert!(DateTimeWrapper::from_parts(-377_705_203_200_000_000_000, -1).is_none());
}

#[test]
fn rfc3339_falls_back_to_display_for_offsets_with_seconds() {
    let odd = DateTimeWrapper::from_parts(0, 30).unwrap();
    let text = odd.to_rfc3339();
    assert!(text.starts_with("1970-01-01 "));
    assert!(!text.contains('T'));
}

#[test]
fn new_identifiers_carry_version_4_uuids() {
    let id = ManifestId::new();
    let text = id.uuid().to_string();
    assert_eq!(text.len(), 36);
    assert_eq!(&text[14..15], "4");
    let urn_uuid = &id.as_urn()["urn:c2pa:".len()..];
    assert_eq!(&urn_uuid[14..15], "4");
    assert_eq!(id.as_urn(), format!("urn:c2pa:{}", text));
    assert_eq!(id.claim_generator(), None);
    assert_eq!(id.version(), None);
}

#[test]
fn identifiers_compare_by_all_their_parts() {
    let a = ManifestId::from_urn("urn:c2pa:123e4567-e89b-12d3-a456-426614174000:gen:2_1").unwrap();
    let b = a.clone();
    assert_eq!(a, b);
    assert_eq!(a.claim_generator(), Some("gen"));
    assert_eq!(a.version(), Some(2));
    let c = ManifestId::from_urn("urn:c2pa:123e4567-e89b-12d3-a456-426614174000:gen").unwrap();
    assert_ne!(a, c);
    let d = ManifestId::from_parts(
        a.as_urn().to_string(),
        a.uuid(),
        Some("gen".to_string()),
        Some(2),
    )
    .unwrap();
    assert_eq!(a, d);
    assert!(ManifestId::from_parts(String::new(), a.uuid(), Some("a:b".to_string()), None).is_none());
}
