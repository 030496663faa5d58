//! C2PA (Coalition for Content Provenance and Authenticity) support: asset
//! classification, manifest identifiers and metadata.
pub mod asset;

pub use asset::{
    determine_asset_type, determine_dataset_type, determine_format, determine_model_type,
    AssetKind, AssetType,
};
pub mod datetime;
pub mod manifest;

pub use datetime::DateTimeWrapper;
pub use manifest::{ManifestId, ManifestMetadata, ManifestType};
