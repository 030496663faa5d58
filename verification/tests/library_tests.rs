use atlas_common::file::{
    next_path_step, PathAnswer, PathStep, check_hard_links, check_symlink_allowed, check_symlink_target, is_safe_symlink_target,
};
use atlas_common::storage::{StorageConfig, StorageCredentials, StorageType};
use atlas_common::ident::Uuid;
use atlas_common::{init, Error};

#[test]
fn init_succeeds() {
    assert!(init().is_ok());
}

#[test]
fn error_codes_and_retriability() {
    let io = Error::Io(std::io::Error::new(std::io::ErrorKind::Other, "disk"));
    assert_eq!(io.error_code(), "IO_ERROR");
    assert!(io.is_retriable());
    let storage = Error::Storage("down".to_string());
    assert_eq!(storage.error_code(), "STORAGE_ERROR");
    assert!(storage.is_retriable());
    let cases = [
        (Error::Validation(String::new()), "VALIDATION_ERROR"),
        (Error::Hash(String::new()), "HASH_ERROR"),
        (Error::Serialization(String::new()), "SERIALIZATION_ERROR"),
        (Error::Time(String::new()), "TIME_ERROR"),
        (Error::NotFound(String::new()), "NOT_FOUND"),
        (Error::AlreadyExists(String::new()), "ALREADY_EXISTS"),
        (Error::InvalidFormat(String::new()), "INVALID_FORMAT"),
        (Error::Unsupported(String::new()), "UNSUPPORTED"),
    ];
    for (e, code) in cases {
        assert_eq!(e.error_code(), code);
        assert!(!e.is_retriable());
    }
    let hex_error = Error::HexDecode(hex::decode("0").unwrap_err());
    assert_eq!(hex_error.error_code(), "HEX_DECODE_ERROR");
    assert!(!hex_error.is_retriable());
    let json_error = Error::Json(serde_json::from_str::<u8>("x").unwrap_err());
    assert_eq!(json_error.error_code(), "JSON_ERROR");
    assert!(!json_error.is_retriable());
}

#[test]
fn default_storage_config() {
    let config = StorageConfig::default();
    assert_eq!(config.storage_type, StorageType::Filesystem);
    assert_eq!(config.url, None);
    assert_eq!(config.path.as_deref(), Some("/tmp/atlas-storage"));
    assert!(config.credentials.is_none());
    assert!(config.options.is_none());
}

#[test]
fn storage_config_with_overrides() {
    let config = StorageConfig {
        storage_type: StorageType::S3,
        url: Some("s3://my-bucket/manifests".to_string()),
        credentials: Some(StorageCredentials {
            username: None,
            password: None,
            token: Some("t".to_string()),
            api_key: None,
        }),
        options: Some(serde_json::Value::Bool(true)),
        ..Default::default()
    };
    assert_eq!(config.storage_type, StorageType::S3);
    assert_eq!(config.path.as_deref(), Some("/tmp/atlas-storage"));
    let copy = config.clone();
    assert_eq!(copy.credentials.unwrap().token.as_deref(), Some("t"));
}

#[test]
fn symlink_targets_are_compared_by_component() {
    assert!(is_safe_symlink_target(Some("/tmp")));
    assert!(is_safe_symlink_target(Some("/tmp/file")));
    assert!(is_safe_symlink_target(Some("/tmp//a/./b")));
    assert!(is_safe_symlink_target(Some("/var/app/data/x.bin")));
    assert!(!is_safe_symlink_target(Some("/tmpx/file")));
    assert!(!is_safe_symlink_target(Some("/var/app")));
    assert!(!is_safe_symlink_target(Some("/var/app/database")));
    assert!(!is_safe_symlink_target(Some("tmp/file")));
    assert!(!is_safe_symlink_target(Some("")));
    assert!(!is_safe_symlink_target(Some("/etc/passwd")));
    assert!(!is_safe_symlink_target(None));
}

fn message(r: atlas_common::Result<()>) -> String {
    match r {
        Err(Error::Validation(m)) => m,
        _ => panic!("expected a validation error"),
    }
}

#[test]
fn file_access_decisions() {
    assert!(check_symlink_allowed("link", true).is_ok());
    assert_eq!(
        message(check_symlink_allowed("link", false)),
        "Path link is a symlink, which is not allowed"
    );
    assert!(check_symlink_target("/tmp/t", Some("/tmp/t")).is_ok());
    assert_eq!(
        message(check_symlink_target("../etc", Some("/etc"))),
        "Symlink target ../etc is not in an allowed location"
    );
    assert!(check_symlink_target("gone", None).is_err());
    assert!(check_hard_links("f", 0).is_ok());
    assert!(check_hard_links("f", 1).is_ok());
    assert_eq!(
        message(check_hard_links("f", 2)),
        "Path f has multiple hard links (2), which may be a security risk"
    );
}

#[test]
fn uuids_parse_and_print() {
    let u = Uuid::parse_str("123E4567-E89B-12D3-A456-426614174000").unwrap();
    assert_eq!(u.to_string(), "123e4567-e89b-12d3-a456-426614174000");
    assert_eq!(u.as_u128(), 0x123e4567_e89b_12d3_a456_426614174000);
    assert_eq!(Uuid::from_u128(u.as_u128()), u);
    assert_eq!(
        Uuid::parse_str("123e4567e89b12d3a456426614174000").unwrap(),
        u
    );
    assert!(Uuid::parse_str("123e4567-e89b-12d3-a456").is_none());
    assert_eq!(Uuid::parse_str("{123e4567-e89b-12d3-a456-426614174000}"), Some(u));
    assert_eq!(Uuid::parse_str("URN:uuid:123e4567-e89b-12d3-a456-426614174000"), Some(u));
    assert!(Uuid::parse_str("123e4567-e89b-12d3-a456-42661417400g").is_none());
    assert!(Uuid::parse_str("123e4567e89b-12d3-a456-4266141740000").is_none());
    assert!(Uuid::parse_str("(123e4567-e89b-12d3-a456-426614174000)").is_none());
    assert!(Uuid::parse_str("not-a-uuid").is_none());
    let v = Uuid::new_v4();
    assert_eq!((v.as_u128() >> 76) & 0xf, 4);
    assert_eq!(Uuid::parse_str(&v.to_string()), Some(v));
}

#[test]
fn path_checks_go_step_by_step() {
    assert!(matches!(next_path_step("p", false, &PathAnswer::Nothing), PathStep::AskStatus));
    let missing = PathAnswer::Status { exists: false, symlink: false };
    assert!(matches!(next_path_step("p", false, &missing), PathStep::UsePath));
    // A symlink to nothing is refused where symlinks are not allowed.
    let dangling = PathAnswer::Status { exists: false, symlink: true };
    match next_path_step("p", false, &dangling) {
        PathStep::Refuse(Error::Validation(m)) => {
            assert_eq!(m, "Path p is a symlink, which is not allowed")
        }
        _ => panic!("expected a refusal"),
    }
    assert!(matches!(next_path_step("p", true, &dangling), PathStep::UsePath));
    let file = PathAnswer::Status { exists: true, symlink: false };
    assert!(matches!(next_path_step("p", false, &file), PathStep::CountLinks));
    let link = PathAnswer::Status { exists: true, symlink: true };
    assert!(matches!(next_path_step("p", true, &link), PathStep::ReadLink));
    match next_path_step("p", false, &link) {
        PathStep::Refuse(Error::Validation(m)) => {
            assert_eq!(m, "Path p is a symlink, which is not allowed")
        }
        _ => panic!("expected a refusal"),
    }
    let good = PathAnswer::LinkTarget { shown: "t".to_string(), canonical: Some("/tmp/t".to_string()) };
    assert!(matches!(next_path_step("p", true, &good), PathStep::UseTarget));
    let bad = PathAnswer::LinkTarget { shown: "t".to_string(), canonical: None };
    match next_path_step("p", true, &bad) {
        PathStep::Refuse(Error::Validation(m)) => {
            assert_eq!(m, "Symlink target t is not in an allowed location")
        }
        _ => panic!("expected a refusal"),
    }
    assert!(matches!(next_path_step("p", true, &PathAnswer::LinkCount(None)), PathStep::UsePath));
    assert!(matches!(next_path_step("p", true, &PathAnswer::LinkCount(Some(1))), PathStep::UsePath));
    match next_path_step("p", true, &PathAnswer::LinkCount(Some(3))) {
        PathStep::Refuse(Error::Validation(m)) => assert_eq!(
            m,
            "Path p has multiple hard links (3), which may be a security risk"
        ),
        _ => panic!("expected a refusal"),
    }
}
