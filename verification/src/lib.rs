//! Validation of App Container image and pod manifests.
//!
//! The crate turns a generic JSON value tree into strongly typed manifest
//! objects, or rejects it with an error tree that mirrors the shape of the
//! input and reports every violation found in one pass.

pub mod image_manifest;
pub mod json;
pub mod pod_manifest;
pub mod types;
pub mod util;
