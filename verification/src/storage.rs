//! Storage abstractions: the kinds of storage backends, their
//! configuration, and the interface a backend offers.
use vstd::prelude::*;
use crate::error::Result;
use serde_json::Value as JsonValue;

verus! {

/// A JSON value of `serde_json`, carried through unchanged.
#[verifier::external_type_specification]
#[verifier::external_body]
pub struct ExJsonValue(JsonValue);

/// Available storage backend types.
#[derive(Debug, Clone, Copy, PartialEq, Eq, Structural)]
pub enum StorageType {
    /// Local filesystem storage
    Filesystem,
    /// Database storage (PostgreSQL, MySQL, etc.)
    Database,
    /// Rekor transparency log
    Rekor,
    /// Amazon S3 or compatible object storage
    S3,
    /// In-memory storage (for testing)
    Memory,
}

/// Storage authentication credentials, for the various ways backends
/// authenticate.
#[derive(Debug, Clone)]
pub struct StorageCredentials {
    /// Username for basic auth
    pub username: Option<String>,
    /// Password for basic auth
    pub password: Option<String>,
    /// Bearer token
    pub token: Option<String>,
    /// API key
    pub api_key: Option<String>,
}

/// Storage backend configuration: what a backend needs to start.
#[derive(Debug, Clone)]
pub struct StorageConfig {
    /// Type of storage backend
    pub storage_type: StorageType,
    /// Connection URL (for databases, S3, etc.)
    pub url: Option<String>,
    /// File system path (for filesystem storage)
    pub path: Option<String>,
    /// Authentication credentials
    pub credentials: Option<StorageCredentials>,
    /// Additional backend-specific options as JSON
    pub options: Option<JsonValue>,
}

/// The directory of the default filesystem storage.
pub open spec fn default_storage_path() -> Seq<char> {
    "/tmp/atlas-storage"@
}

impl Default for StorageConfig {
    /// Filesystem storage under `/tmp/atlas-storage`, with no URL,
    /// credentials or options.
    fn default() -> (r: Self)
        ensures
            r.storage_type == StorageType::Filesystem,
            r.url is None,
            r.path matches Some(p) && p@ == default_storage_path(),
            r.credentials is None,
            r.options is None,
    {
        StorageConfig {
            storage_type: StorageType::Filesystem,
            url: None,
            path: Some(String::from_str("/tmp/atlas-storage")),
            credentials: None,
            options: None,
        }
    }
}

/// The operations every storage backend offers, whatever it stores to
/// (filesystem, database, object storage, ...).
pub trait StorageBackend {
    /// Stores `data` under `id`.
    fn store(&self, id: &str, data: &[u8]) -> Result<()>;

    /// The data stored under `id`; fails when there is none.
    fn retrieve(&self, id: &str) -> Result<Vec<u8>>;

    /// The identifiers of everything stored.
    fn list(&self) -> Result<Vec<String>>;

    /// Deletes the data stored under `id`.
    fn delete(&self, id: &str) -> Result<()>;

    /// Whether something is stored under `id`.
    fn contains(&self, id: &str) -> Result<bool>;
}

} // verus!
