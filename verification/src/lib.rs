//! Artifact references and manifests for a supply-chain depot, with the
//! validation rules that decide whether a manifest may be trusted, and the
//! stable hashes that identify them.

pub mod artifact;
pub mod canonical;
pub mod digest;
pub mod error;
pub mod laws;
pub mod laws_meaning;
pub mod metadata;
pub mod project;
pub mod text;

pub use artifact::{
    ArtifactManifest, ArtifactRef, ArtifactState, ArtifactType, Checksum, ChecksumAlgorithm,
    DistributionMetadata, PackageType, RetentionMetadata, TimestampChecks,
};
pub use digest::{stable_json_hash, to_lower_hex};
pub use error::{ManifestValidationError, MetadataValidationError};
pub use metadata::SafeMetadata;
pub use project::{
    project_card, summary, ProjectCard, PROJECT_NAME, PROJECT_RELATIONSHIP, PROJECT_ROLE,
    PROJECT_UPSTREAM,
};
