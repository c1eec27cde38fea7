//! Adapter plugins and RSP targets: their manifests, validation, where
//! manifest files are found, and how builtin and user manifests combine.
pub mod manifest;
pub mod target;
pub mod loader;
