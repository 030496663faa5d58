//! Building blocks for provenance tracking of machine learning assets:
//! cryptographic hashing, C2PA identifiers and asset types, validation,
//! storage configuration and the decisions of secure file access.
pub mod c2pa;
pub mod error;
pub mod file;
pub mod hash;
pub mod ident;
pub mod storage;
pub mod text;
pub mod validation;

pub use c2pa::{AssetType, ManifestId, ManifestMetadata, ManifestType};
pub use error::{Error, Result};
pub use hash::{HashAlgorithm, Hasher};
pub use storage::{StorageBackend, StorageConfig, StorageType};

use vstd::prelude::*;

verus! {

/// Initializes the library. Nothing needs setting up yet, so it always
/// succeeds.
pub fn init() -> (r: Result<()>)
    ensures
        r is Ok,
{
    Ok(())
}

} // verus!
