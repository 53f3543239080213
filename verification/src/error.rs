//! Why a manifest or its metadata was refused.

use vstd::prelude::*;

verus! {

/// A refusal of `ArtifactRef::validate` or `ArtifactManifest::validate`.
#[derive(Debug, Clone, PartialEq, Eq)]
pub enum ManifestValidationError {
    EmptyField(&'static str),
    MissingSha256Checksum,
    SecretLikeMetadataKey(String),
    ManifestRefMismatch { manifest_id: String, manifest_ref: String },
    MalformedSha256 { field: &'static str, value: String },
    MalformedTimestamp { field: &'static str, value: String },
}

/// The content of a `ManifestValidationError`, with texts as character sequences.
pub enum ValidationFailure {
    EmptyField(Seq<char>),
    MissingSha256Checksum,
    SecretLikeMetadataKey(Seq<char>),
    ManifestRefMismatch { manifest_id: Seq<char>, manifest_ref: Seq<char> },
    MalformedSha256 { field: Seq<char>, value: Seq<char> },
    MalformedTimestamp { field: Seq<char>, value: Seq<char> },
}

impl View for ManifestValidationError {
    type V = ValidationFailure;

    open spec fn view(&self) -> ValidationFailure {
        match self {
            ManifestValidationError::EmptyField(f) => ValidationFailure::EmptyField(f@),
            ManifestValidationError::MissingSha256Checksum => ValidationFailure::MissingSha256Checksum,
            ManifestValidationError::SecretLikeMetadataKey(k) => ValidationFailure::SecretLikeMetadataKey(
                k@,
            ),
            ManifestValidationError::ManifestRefMismatch { manifest_id, manifest_ref } => {
                ValidationFailure::ManifestRefMismatch {
                    manifest_id: manifest_id@,
                    manifest_ref: manifest_ref@,
                }
            },
            ManifestValidationError::MalformedSha256 { field, value } => {
                ValidationFailure::MalformedSha256 { field: field@, value: value@ }
            },
            ManifestValidationError::MalformedTimestamp { field, value } => {
                ValidationFailure::MalformedTimestamp { field: field@, value: value@ }
            },
        }
    }
}

/// The outcome of a validation, with the error taken by its view.
pub open spec fn outcome(r: Result<(), ManifestValidationError>) -> Result<(), ValidationFailure> {
    match r {
        Ok(()) => Ok(()),
        Err(e) => Err(e@),
    }
}

/// The human-readable text of a validation failure.
pub open spec fn failure_message(f: ValidationFailure) -> Seq<char> {
    match f {
        ValidationFailure::EmptyField(field) => "field `"@ + field + "` must not be empty"@,
        ValidationFailure::MissingSha256Checksum => "manifest requires a sha256 checksum"@,
        ValidationFailure::SecretLikeMetadataKey(key) => "metadata key `"@ + key
            + "` may contain a secret"@,
        ValidationFailure::ManifestRefMismatch { manifest_id, manifest_ref } => "artifact manifest_ref `"@
            + manifest_ref + "` does not match manifest_id `"@ + manifest_id + "`"@,
        ValidationFailure::MalformedSha256 { field, value } => "field `"@ + field
            + "` is not a sha256 hash: `"@ + value + "`"@,
        ValidationFailure::MalformedTimestamp { field, value } => "field `"@ + field
            + "` is not RFC3339: `"@ + value + "`"@,
    }
}

impl ManifestValidationError {
    /// The human-readable text of this error.
    pub fn message(&self) -> (m: String)
        ensures
            m@ == failure_message(self@),
    {
        match self {
            ManifestValidationError::EmptyField(field) => {
                let mut m = String::from_str("field `");
                m.append(field);
                m.append("` must not be empty");
                m
            },
            ManifestValidationError::MissingSha256Checksum => String::from_str(
                "manifest requires a sha256 checksum",
            ),
            ManifestValidationError::SecretLikeMetadataKey(key) => {
                let mut m = String::from_str("metadata key `");
                m.append(key.as_str());
                m.append("` may contain a secret");
                m
            },
            ManifestValidationError::ManifestRefMismatch { manifest_id, manifest_ref } => {
                let mut m = String::from_str("artifact manifest_ref `");
                m.append(manifest_ref.as_str());
                m.append("` does not match manifest_id `");
                m.append(manifest_id.as_str());
                m.append("`");
                m
            },
            ManifestValidationError::MalformedSha256 { field, value } => {
                let mut m = String::from_str("field `");
                m.append(field);
                m.append("` is not a sha256 hash: `");
                m.append(value.as_str());
                m.append("`");
                m
            },
            ManifestValidationError::MalformedTimestamp { field, value } => {
                let mut m = String::from_str("field `");
                m.append(field);
                m.append("` is not RFC3339: `");
                m.append(value.as_str());
                m.append("`");
                m
            },
        }
    }
}

/// A refusal of `SafeMetadata::validate`.
#[derive(Debug, Clone, PartialEq, Eq)]
pub enum MetadataValidationError {
    SecretLikeKey(String),
}

impl View for MetadataValidationError {
    type V = Seq<char>;

    /// The refused key.
    open spec fn view(&self) -> Seq<char> {
        match self {
            MetadataValidationError::SecretLikeKey(k) => k@,
        }
    }
}

impl MetadataValidationError {
    /// The human-readable text of this error.
    pub fn message(&self) -> (m: String)
        ensures
            m@ == "metadata key `"@ + self@ + "` may contain a secret"@,
    {
        match self {
            MetadataValidationError::SecretLikeKey(key) => {
                let mut m = String::from_str("metadata key `");
                m.append(key.as_str());
                m.append("` may contain a secret");
                m
            },
        }
    }
}

} // verus!
