use gear_depot::{
    project_card, summary, ArtifactManifest, ArtifactRef, ArtifactState, ArtifactType, Checksum,
    ChecksumAlgorithm, DistributionMetadata, ManifestValidationError, PackageType,
    RetentionMetadata, SafeMetadata,
};

fn valid_release_manifest() -> ArtifactManifest {
    ArtifactManifest {
        manifest_id: "manifest_01".to_string(),
        artifact: valid_artifact_ref(),
        package_type: PackageType::Binary,
        checksums: vec![Checksum {
            algorithm: ChecksumAlgorithm::Sha256,
            value: "b".repeat(64),
        }],
        provenance_id: "prov_01".to_string(),
        retention: RetentionMetadata::default(),
        distribution: DistributionMetadata::default(),
        metadata: SafeMetadata::default(),
    }
}

fn valid_artifact_ref() -> ArtifactRef {
    ArtifactRef {
        artifact_id: "art_01".to_string(),
        artifact_type: ArtifactType::ReleaseAsset,
        producer: "gear-cable".to_string(),
        version: "1.0.0".to_string(),
        hash: format!("sha256:{}", "a".repeat(64)),
        manifest_ref: "manifest_01".to_string(),
        state: ArtifactState::Active,
        created_at: "2026-06-30T00:00:00Z".to_string(),
    }
}

#[test]
fn project_card_names_the_repo_and_upstream() {
    let project = project_card();
    assert_eq!(project.name, "gear-depot");
    assert_eq!(project.upstream, "Starmetal");
    assert!(summary().contains(project.role));
}

#[test]
fn artifact_manifest_requires_sha256_checksum() {
    let manifest = ArtifactManifest {
        manifest_id: "manifest_01".to_string(),
        artifact: ArtifactRef {
            artifact_id: "art_01".to_string(),
            artifact_type: ArtifactType::ReleaseAsset,
            producer: "gear-cable".to_string(),
            version: "1.0.0".to_string(),
            hash: format!("sha256:{}", "a".repeat(64)),
            manifest_ref: "manifest_01".to_string(),
            state: ArtifactState::Active,
            created_at: "2026-06-30T00:00:00Z".to_string(),
        },
        package_type: PackageType::Binary,
        checksums: Vec::new(),
        provenance_id: "prov_01".to_string(),
        retention: RetentionMetadata::default(),
        distribution: DistributionMetadata::default(),
        metadata: SafeMetadata::default(),
    };

    let error = manifest
        .validate()
        .expect_err("sha256 checksum is required");

    assert_eq!(error, ManifestValidationError::MissingSha256Checksum);
}

#[test]
fn stable_manifest_hash_is_independent_from_metadata_insertion_order() {
    let mut left = valid_release_manifest();
    left.metadata = SafeMetadata::from_pairs([
        ("runner".to_string(), "a".to_string()),
        ("profile".to_string(), "release".to_string()),
    ]);

    let mut right = valid_release_manifest();
    right.metadata = SafeMetadata::from_pairs([
        ("profile".to_string(), "release".to_string()),
        ("runner".to_string(), "a".to_string()),
    ]);

    assert_eq!(left.stable_hash(), right.stable_hash());
}

#[test]
fn metadata_debug_redacts_values() {
    let metadata =
        SafeMetadata::from_pairs([("token_source".to_string(), "secret-token".to_string())]);

    let debug = metadata.debug_string();

    assert!(debug.contains("token_source"));
    assert!(!debug.contains("secret-token"));
}

#[test]
fn artifact_manifest_validation_rejects_secret_like_metadata_keys() {
    let mut manifest = valid_release_manifest();
    manifest.metadata = SafeMetadata::from_pairs([(
        "registry_password".to_string(),
        "password-should-not-be-stored".to_string(),
    )]);

    let error = manifest
        .validate()
        .expect_err("secret-like metadata keys are rejected");

    assert_eq!(
        error,
        ManifestValidationError::SecretLikeMetadataKey("registry_password".to_string())
    );
}

#[test]
fn artifact_manifest_validation_rejects_malformed_artifact_hash() {
    let mut manifest = valid_release_manifest();
    manifest.artifact.hash = "sha256:not-hex".to_string();

    let error = manifest
        .validate()
        .expect_err("malformed artifact hash is rejected");

    assert_eq!(
        error,
        ManifestValidationError::MalformedSha256 {
            field: "artifact.hash",
            value: "sha256:not-hex".to_string()
        }
    );
}

#[test]
fn artifact_manifest_validation_rejects_malformed_checksum() {
    let mut manifest = valid_release_manifest();
    manifest.checksums = vec![Checksum {
        algorithm: ChecksumAlgorithm::Sha256,
        value: "abc123".to_string(),
    }];

    let error = manifest
        .validate()
        .expect_err("malformed checksum is rejected");

    assert_eq!(
        error,
        ManifestValidationError::MalformedSha256 {
            field: "checksums.sha256",
            value: "abc123".to_string()
        }
    );
}

#[test]
fn artifact_ref_validation_rejects_empty_producer() {
    let mut artifact = valid_artifact_ref();
    artifact.producer = " ".to_string();

    let error = artifact.validate().expect_err("empty producer is rejected");

    assert_eq!(error, ManifestValidationError::EmptyField("producer"));
}

#[test]
fn artifact_manifest_validation_rejects_manifest_ref_mismatch() {
    let mut manifest = valid_release_manifest();
    manifest.artifact.manifest_ref = "other_manifest".to_string();

    let error = manifest
        .validate()
        .expect_err("artifact manifest_ref must point at owning manifest");

    assert_eq!(
        error,
        ManifestValidationError::ManifestRefMismatch {
            manifest_id: "manifest_01".to_string(),
            manifest_ref: "other_manifest".to_string()
        }
    );
}

#[test]
fn artifact_ref_validation_rejects_malformed_created_at() {
    let mut artifact = valid_artifact_ref();
    artifact.created_at = "2026/06/30".to_string();

    let error = artifact
        .validate()
        .expect_err("non-RFC3339 created_at is rejected");

    assert_eq!(
        error,
        ManifestValidationError::MalformedTimestamp {
            field: "created_at",
            value: "2026/06/30".to_string()
        }
    );
}

#[test]
fn artifact_manifest_validation_rejects_malformed_published_at() {
    let mut manifest = valid_release_manifest();
    manifest.distribution.published_at = Some("30-06-2026".to_string());

    let error = manifest
        .validate()
        .expect_err("non-RFC3339 published_at is rejected");

    assert_eq!(
        error,
        ManifestValidationError::MalformedTimestamp {
            field: "distribution.published_at",
            value: "30-06-2026".to_string()
        }
    );
}
