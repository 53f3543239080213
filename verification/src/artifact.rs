//! Artifact references and manifests, and the rules that decide whether
//! they may be trusted.

use time::format_description::well_known::Rfc3339;
use time::OffsetDateTime;
use vstd::prelude::*;

use crate::error::{outcome, ManifestValidationError, MetadataValidationError, ValidationFailure};
use crate::metadata::{first_secret_key, SafeMetadata};
use crate::text::{bare_sha256_hex, blank, is_bare_sha256_hex, is_blank, is_sha256_hash, is_valid_sha256};

verus! {

/// Whether the `time` crate parses the text as an RFC 3339 date-time with
/// an explicit offset (`OffsetDateTime::parse` with `Rfc3339`).
pub uninterp spec fn rfc3339_parses(s: Seq<char>) -> bool;

/// Calls `time::OffsetDateTime::parse(value, &Rfc3339)` and reports whether
/// it succeeded. Trusted: the answer is `rfc3339_parses` of the text; the
/// grammar it accepts is left to the `time` crate.
#[verifier::external_body]
fn parses_as_rfc3339(value: &str) -> (ok: bool)
    ensures
        ok == rfc3339_parses(value@),
{
    OffsetDateTime::parse(value, &Rfc3339).is_ok()
}

#[derive(Debug, Clone, PartialEq, Eq)]
pub enum ArtifactType {
    SpecPackage,
    HandoffPayload,
    CuratedExport,
    LearningExport,
    ReleaseAsset,
    InspectionReport,
}

#[derive(Debug, Clone, PartialEq, Eq)]
pub enum ArtifactState {
    Active,
    Revoked,
    Superseded,
    Deleted,
}

#[derive(Debug, Clone, PartialEq, Eq)]
pub enum PackageType {
    JsonBundle,
    Tar,
    Zip,
    Binary,
    Container,
    RegistryPackage,
}

#[derive(Debug, Clone, PartialEq, Eq)]
pub enum ChecksumAlgorithm {
    Sha256,
}

#[derive(Debug, Clone, PartialEq, Eq)]
pub struct Checksum {
    pub algorithm: ChecksumAlgorithm,
    pub value: String,
}

/// A stable reference to an artifact that can be packaged, verified,
/// retained, revoked or distributed.
#[derive(Debug, Clone, PartialEq, Eq)]
pub struct ArtifactRef {
    pub artifact_id: String,
    pub artifact_type: ArtifactType,
    pub producer: String,
    pub version: String,
    pub hash: String,
    pub manifest_ref: String,
    pub state: ArtifactState,
    pub created_at: String,
}

/// Retention policy and lifecycle timestamps.
#[derive(Debug, Clone, PartialEq, Eq)]
pub struct RetentionMetadata {
    pub policy_ref: Option<String>,
    pub expires_at: Option<String>,
    pub revoked_at: Option<String>,
    pub delete_after: Option<String>,
}

/// Distribution channels, install floor and publication time.
#[derive(Debug, Clone, PartialEq, Eq)]
pub struct DistributionMetadata {
    pub channels: Vec<String>,
    pub install_floor: Option<String>,
    pub published_at: Option<String>,
}

/// A manifest: the artifact, its package type, checksums, provenance,
/// retention, distribution and metadata.
#[derive(Clone, PartialEq, Eq)]
pub struct ArtifactManifest {
    pub manifest_id: String,
    pub artifact: ArtifactRef,
    pub package_type: PackageType,
    pub checksums: Vec<Checksum>,
    pub provenance_id: String,
    pub retention: RetentionMetadata,
    pub distribution: DistributionMetadata,
    pub metadata: SafeMetadata,
}

/// Whether each timestamp of a manifest reads as RFC 3339; a timestamp that
/// is absent counts as readable.
#[derive(Debug, Clone, Copy, PartialEq, Eq)]
pub struct TimestampChecks {
    pub created_at: bool,
    pub expires_at: bool,
    pub revoked_at: bool,
    pub delete_after: bool,
    pub published_at: bool,
}

/// A checksum value is 64 hex digits, written bare or after `sha256:`.
pub open spec fn is_checksum_value(s: Seq<char>) -> bool {
    is_bare_sha256_hex(s) || is_sha256_hash(s)
}

/// The value of the first checksum, in list order, that is refused.
pub open spec fn first_bad_checksum(cs: Seq<Checksum>) -> Option<Seq<char>>
    decreases cs.len(),
{
    if cs.len() == 0 {
        None
    } else if !is_checksum_value(cs[0].value@) {
        Some(cs[0].value@)
    } else {
        first_bad_checksum(cs.drop_first())
    }
}

/// An optional timestamp that is present and does not read as RFC 3339.
pub open spec fn bad_optional(value: Option<String>, readable: bool) -> bool {
    value is Some && !readable
}

/// The outcome for a required text field.
pub open spec fn non_empty_outcome(field: Seq<char>, value: Seq<char>) -> Result<(), ValidationFailure> {
    if is_blank(value) {
        Err(ValidationFailure::EmptyField(field))
    } else {
        Ok(())
    }
}

/// The readability of an optional timestamp, as the `time` crate decides it.
pub open spec fn optional_readable(value: Option<String>) -> bool {
    match value {
        Some(v) => rfc3339_parses(v@),
        None => true,
    }
}

impl ArtifactRef {
    /// What validation of this reference answers, given whether `created_at`
    /// reads as RFC 3339. The first rule broken, in this order, is reported.
    pub open spec fn check(self, created_at_readable: bool) -> Result<(), ValidationFailure> {
        if is_blank(self.artifact_id@) {
            Err(ValidationFailure::EmptyField("artifact_id"@))
        } else if is_blank(self.producer@) {
            Err(ValidationFailure::EmptyField("producer"@))
        } else if is_blank(self.version@) {
            Err(ValidationFailure::EmptyField("version"@))
        } else if is_blank(self.manifest_ref@) {
            Err(ValidationFailure::EmptyField("manifest_ref"@))
        } else if !is_sha256_hash(self.hash@) {
            Err(ValidationFailure::MalformedSha256 { field: "artifact.hash"@, value: self.hash@ })
        } else if !created_at_readable {
            Err(ValidationFailure::MalformedTimestamp { field: "created_at"@, value: self.created_at@ })
        } else {
            Ok(())
        }
    }

    /// Validates the reference, taking as given whether `created_at` reads
    /// as RFC 3339.
    pub fn validate_given(&self, created_at_readable: bool) -> (r: Result<(), ManifestValidationError>)
        ensures
            outcome(r) == self.check(created_at_readable),
    {
        let r = validate_non_empty_field("artifact_id", self.artifact_id.as_str());
        if r.is_err() {
            return r;
        }
        let r = validate_non_empty_field("producer", self.producer.as_str());
        if r.is_err() {
            return r;
        }
        let r = validate_non_empty_field("version", self.version.as_str());
        if r.is_err() {
            return r;
        }
        let r = validate_non_empty_field("manifest_ref", self.manifest_ref.as_str());
        if r.is_err() {
            return r;
        }
        let r = validate_sha256_field("artifact.hash", self.hash.as_str());
        if r.is_err() {
            return r;
        }
        validate_timestamp_field("created_at", self.created_at.as_str(), created_at_readable)
    }

    /// Validates the reference: required fields non-blank, `hash` a
    /// `sha256:` hash, `created_at` RFC 3339.
    pub fn validate(&self) -> (r: Result<(), ManifestValidationError>)
        ensures
            outcome(r) == self.check(rfc3339_parses(self.created_at@)),
    {
        let readable = parses_as_rfc3339(self.created_at.as_str());
        self.validate_given(readable)
    }
}

impl ArtifactManifest {
    /// The timestamp verdicts that the `time` crate gives for this manifest.
    pub open spec fn readable_timestamps(self) -> TimestampChecks {
        TimestampChecks {
            created_at: rfc3339_parses(self.artifact.created_at@),
            expires_at: optional_readable(self.retention.expires_at),
            revoked_at: optional_readable(self.retention.revoked_at),
            delete_after: optional_readable(self.retention.delete_after),
            published_at: optional_readable(self.distribution.published_at),
        }
    }

    /// What validation of this manifest answers, given the timestamp verdicts.
    /// The first rule broken, in this order, is reported.
    pub open spec fn check(self, t: TimestampChecks) -> Result<(), ValidationFailure> {
        if is_blank(self.manifest_id@) {
            Err(ValidationFailure::EmptyField("manifest_id"@))
        } else if is_blank(self.provenance_id@) {
            Err(ValidationFailure::EmptyField("provenance_id"@))
        } else if first_secret_key(self.metadata@) is Some {
            Err(ValidationFailure::SecretLikeMetadataKey(first_secret_key(self.metadata@)->0))
        } else if self.artifact.check(t.created_at) is Err {
            self.artifact.check(t.created_at)
        } else if self.artifact.manifest_ref@ != self.manifest_id@ {
            Err(
                ValidationFailure::ManifestRefMismatch {
                    manifest_id: self.manifest_id@,
                    manifest_ref: self.artifact.manifest_ref@,
                },
            )
        } else if bad_optional(self.retention.expires_at, t.expires_at) {
            Err(
                ValidationFailure::MalformedTimestamp {
                    field: "retention.expires_at"@,
                    value: self.retention.expires_at->0@,
                },
            )
        } else if bad_optional(self.retention.revoked_at, t.revoked_at) {
            Err(
                ValidationFailure::MalformedTimestamp {
                    field: "retention.revoked_at"@,
                    value: self.retention.revoked_at->0@,
                },
            )
        } else if bad_optional(self.retention.delete_after, t.delete_after) {
            Err(
                ValidationFailure::MalformedTimestamp {
                    field: "retention.delete_after"@,
                    value: self.retention.delete_after->0@,
                },
            )
        } else if bad_optional(self.distribution.published_at, t.published_at) {
            Err(
                ValidationFailure::MalformedTimestamp {
                    field: "distribution.published_at"@,
                    value: self.distribution.published_at->0@,
                },
            )
        } else if self.checksums@.len() == 0 {
            Err(ValidationFailure::MissingSha256Checksum)
        } else if first_bad_checksum(self.checksums@) is Some {
            Err(
                ValidationFailure::MalformedSha256 {
                    field: "checksums.sha256"@,
                    value: first_bad_checksum(self.checksums@)->0,
                },
            )
        } else {
            Ok(())
        }
    }

    /// Asks the `time` crate about each timestamp of the manifest.
    pub fn timestamp_checks(&self) -> (t: TimestampChecks)
        ensures
            t == self.readable_timestamps(),
    {
        TimestampChecks {
            created_at: parses_as_rfc3339(self.artifact.created_at.as_str()),
            expires_at: optional_parses(&self.retention.expires_at),
            revoked_at: optional_parses(&self.retention.revoked_at),
            delete_after: optional_parses(&self.retention.delete_after),
            published_at: optional_parses(&self.distribution.published_at),
        }
    }

    /// Validates the manifest, taking the timestamp verdicts as given.
    pub fn validate_given(&self, t: &TimestampChecks) -> (r: Result<(), ManifestValidationError>)
        ensures
            outcome(r) == self.check(*t),
    {
        let r = validate_non_empty_field("manifest_id", self.manifest_id.as_str());
        if r.is_err() {
            return r;
        }
        let r = validate_non_empty_field("provenance_id", self.provenance_id.as_str());
        if r.is_err() {
            return r;
        }
        match self.metadata.validate() {
            Err(MetadataValidationError::SecretLikeKey(key)) => {
                return Err(ManifestValidationError::SecretLikeMetadataKey(key));
            },
            Ok(()) => {},
        }
        let r = self.artifact.validate_given(t.created_at);
        if r.is_err() {
            return r;
        }
        if self.artifact.manifest_ref != self.manifest_id {
            return Err(
                ManifestValidationError::ManifestRefMismatch {
                    manifest_id: self.manifest_id.clone(),
                    manifest_ref: self.artifact.manifest_ref.clone(),
                },
            );
        }
        let r = validate_optional_timestamp_field(
            "retention.expires_at",
            &self.retention.expires_at,
            t.expires_at,
        );
        if r.is_err() {
            return r;
        }
        let r = validate_optional_timestamp_field(
            "retention.revoked_at",
            &self.retention.revoked_at,
            t.revoked_at,
        );
        if r.is_err() {
            return r;
        }
        let r = validate_optional_timestamp_field(
            "retention.delete_after",
            &self.retention.delete_after,
            t.delete_after,
        );
        if r.is_err() {
            return r;
        }
        let r = validate_optional_timestamp_field(
            "distribution.published_at",
            &self.distribution.published_at,
            t.published_at,
        );
        if r.is_err() {
            return r;
        }
        if self.checksums.len() == 0 {
            return Err(ManifestValidationError::MissingSha256Checksum);
        }
        let n = self.checksums.len();
        let ghost cs = self.checksums@;
        let mut i: usize = 0;
        assert(cs.skip(0) =~= cs);
        while i < n
            invariant
                n == cs.len(),
                cs == self.checksums@,
                i <= n,
                first_bad_checksum(cs) == first_bad_checksum(cs.skip(i as int)),
                self.check(*t) == match first_bad_checksum(cs) {
                    Some(v) => Err(ValidationFailure::MalformedSha256 { field: "checksums.sha256"@, value: v }),
                    None => Ok(()),
                },
            decreases n - i,
        {
            assert(cs.skip(i as int)[0] == cs[i as int]);
            let checksum = &self.checksums[i];
            match checksum.algorithm {
                ChecksumAlgorithm::Sha256 => {
                    let r = validate_checksum_value("checksums.sha256", checksum.value.as_str());
                    if r.is_err() {
                        return r;
                    }
                },
            }
            assert(cs.skip(i as int).drop_first() =~= cs.skip(i + 1));
            i = i + 1;
        }
        Ok(())
    }

    /// Validates the manifest: its own ids, its metadata keys, its artifact,
    /// the artifact's back-reference, its timestamps and its checksums.
    pub fn validate(&self) -> (r: Result<(), ManifestValidationError>)
        ensures
            outcome(r) == self.check(self.readable_timestamps()),
    {
        let t = self.timestamp_checks();
        self.validate_given(&t)
    }
}

/// Refuses a blank required field.
fn validate_non_empty_field(field: &'static str, value: &str) -> (r: Result<(), ManifestValidationError>)
    ensures
        outcome(r) == non_empty_outcome(field@, value@),
{
    if blank(value) {
        return Err(ManifestValidationError::EmptyField(field));
    }
    Ok(())
}

/// Refuses a value that is not `sha256:` and 64 hex digits.
fn validate_sha256_field(field: &'static str, value: &str) -> (r: Result<(), ManifestValidationError>)
    ensures
        outcome(r) == if is_sha256_hash(value@) {
            Ok(())
        } else {
            Err(ValidationFailure::MalformedSha256 { field: field@, value: value@ })
        },
{
    if is_valid_sha256(value) {
        return Ok(());
    }
    Err(ManifestValidationError::MalformedSha256 { field, value: value.to_owned() })
}

/// Refuses a checksum value that is neither 64 hex digits nor `sha256:` and
/// 64 hex digits.
fn validate_checksum_value(field: &'static str, value: &str) -> (r: Result<(), ManifestValidationError>)
    ensures
        outcome(r) == if is_checksum_value(value@) {
            Ok(())
        } else {
            Err(ValidationFailure::MalformedSha256 { field: field@, value: value@ })
        },
{
    if bare_sha256_hex(value) || is_valid_sha256(value) {
        return Ok(());
    }
    Err(ManifestValidationError::MalformedSha256 { field, value: value.to_owned() })
}

/// Refuses a timestamp that does not read as RFC 3339, given the verdict.
fn validate_timestamp_field(field: &'static str, value: &str, readable: bool) -> (r: Result<
    (),
    ManifestValidationError,
>)
    ensures
        outcome(r) == if readable {
            Ok(())
        } else {
            Err(ValidationFailure::MalformedTimestamp { field: field@, value: value@ })
        },
{
    if readable {
        return Ok(());
    }
    Err(ManifestValidationError::MalformedTimestamp { field, value: value.to_owned() })
}

/// Refuses a present timestamp that does not read as RFC 3339, given the verdict.
fn validate_optional_timestamp_field(field: &'static str, value: &Option<String>, readable: bool) -> (r:
    Result<(), ManifestValidationError>)
    ensures
        outcome(r) == if bad_optional(*value, readable) {
            Err(ValidationFailure::MalformedTimestamp { field: field@, value: value->0@ })
        } else {
            Ok(())
        },
{
    match value {
        Some(v) => validate_timestamp_field(field, v.as_str(), readable),
        None => Ok(()),
    }
}

/// Asks the `time` crate whether a present timestamp reads as RFC 3339.
fn optional_parses(value: &Option<String>) -> (ok: bool)
    ensures
        ok == optional_readable(*value),
{
    match value {
        Some(v) => parses_as_rfc3339(v.as_str()),
        None => true,
    }
}

impl Default for RetentionMetadata {
    fn default() -> (r: Self)
        ensures
            r.policy_ref is None,
            r.expires_at is None,
            r.revoked_at is None,
            r.delete_after is None,
    {
        RetentionMetadata { policy_ref: None, expires_at: None, revoked_at: None, delete_after: None }
    }
}

impl Default for DistributionMetadata {
    fn default() -> (d: Self)
        ensures
            d.channels@.len() == 0,
            d.install_floor is None,
            d.published_at is None,
    {
        DistributionMetadata { channels: Vec::new(), install_floor: None, published_at: None }
    }
}

} // verus!
