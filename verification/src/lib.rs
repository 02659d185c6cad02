//! Packs and their signatures: the canonical form of a pack directory, the
//! signature record in its manifest, signing and verification, and the
//! sections of a manifest with their rules.

pub mod clock;
pub mod component;
pub mod digest;
pub mod document;
pub mod encoding;
pub mod events;
pub mod flow;
pub mod flows;
pub mod interfaces;
pub mod keys;
pub mod listing;
pub mod manifest;
pub mod mcp;
pub mod messaging;
pub mod pack_manifest;
pub mod packignore;
pub mod paths;
pub mod repo;
pub mod sbom;
pub mod signing;
pub mod snapshot;
pub mod sorting;
pub mod templates;
pub mod text;
pub mod types;

pub use manifest::PackSignature;
pub use signing::sign_pack_dir;
pub use signing::verify_pack_dir;
pub use signing::VerificationError;
pub use signing::VerifyOptions;
pub use snapshot::ManifestSource;
pub use snapshot::PackDirectory;
pub use snapshot::PackFile;
