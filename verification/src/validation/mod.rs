//! Validation of manifest identifiers, C2PA URNs, hashes and manifest
//! metadata.
pub mod c2pa;
pub mod hash;
pub mod manifest;

pub use c2pa::{ensure_c2pa_urn, extract_uuid_from_urn, validate_c2pa_urn};
pub use hash::validate_manifest_hash;
pub use manifest::{validate_manifest_id, validate_manifest_metadata};
