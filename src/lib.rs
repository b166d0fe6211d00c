//! Verified core of a client that downloads sets of remotely hosted files
//! with bounded parallelism, per-file integrity checks and aggregate progress.
pub mod assets;
pub mod batch;
pub mod download_util;
pub mod java;
pub mod manifest_v2;
pub mod news;
pub mod patch_notes;
pub mod progress;
pub mod sha_validation;
pub mod text;
pub mod version_manifest;
