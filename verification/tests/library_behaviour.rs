use gear_depot::{
    project_card, stable_json_hash, summary, to_lower_hex, ArtifactManifest, ArtifactRef,
    ArtifactState, ArtifactType, Checksum, ChecksumAlgorithm, DistributionMetadata,
    ManifestValidationError, MetadataValidationError, PackageType, RetentionMetadata,
    SafeMetadata, TimestampChecks,
};

fn artifact() -> ArtifactRef {
    ArtifactRef {
        artifact_id: "art_01".to_string(),
        artifact_type: ArtifactType::ReleaseAsset,
        producer: "gear-cable".to_string(),
        version: "1.0.0".to_string(),
        hash: format!("sha256:{}", "a".repeat(64)),
        manifest_ref: "manifest_01".to_string(),
        state: ArtifactState::Active,
        created_at: "2026-06-30T00:00:00Z".to_string(),
    }
}

fn manifest() -> ArtifactManifest {
    ArtifactManifest {
        manifest_id: "manifest_01".to_string(),
        artifact: artifact(),
        package_type: PackageType::Binary,
        checksums: vec![Checksum {
            algorithm: ChecksumAlgorithm::Sha256,
            value: "b".repeat(64),
        }],
        provenance_id: "prov_01".to_string(),
        retention: RetentionMetadata::default(),
        distribution: DistributionMetadata::default(),
        metadata: SafeMetadata::default(),
    }
}

fn all_readable() -> TimestampChecks {
    TimestampChecks {
        created_at: true,
        expires_at: true,
        revoked_at: true,
        delete_after: true,
        published_at: true,
    }
}

#[test]
fn summary_is_name_role_and_upstream() {
    assert_eq!(
        summary(),
        "gear-depot \u{2014} sovereign supply-chain depot (upstream: Starmetal)"
    );
    assert_eq!(project_card().role, "sovereign supply-chain depot");
}

#[test]
fn lower_hex_writes_two_digits_per_byte() {
    assert_eq!(to_lower_hex(&[0x00, 0x0f, 0xab, 0xff]), "000fabff");
    assert_eq!(to_lower_hex(&[]), "");
}

#[test]
fn stable_json_hash_is_sha256_of_the_bytes() {
    assert_eq!(
        stable_json_hash(b"abc"),
        "sha256:ba7816bf8f01cfea414140de5dae2223b00361a396177a9cb410ff61f20015ad"
    );
}

#[test]
fn empty_metadata_hashes_the_empty_object() {
    let metadata = SafeMetadata::default();
    assert_eq!(metadata.canonical_json(), "{}");
    assert_eq!(
        metadata.stable_hash(),
        "sha256:44136fa355b3678a1146ad16f7e8649e94fb4fc21fe77e8310c060f61caaff8a"
    );
}

#[test]
fn later_pair_wins_and_keys_are_sorted() {
    let metadata = SafeMetadata::from_pairs([
        ("b".to_string(), "x\"y".to_string()),
        ("a".to_string(), "1".to_string()),
        ("a".to_string(), "2".to_string()),
    ]);
    assert_eq!(metadata.canonical_json(), "{\"a\":\"2\",\"b\":\"x\\\"y\"}");
    assert_eq!(
        metadata.stable_hash(),
        "sha256:1442b470f7c7dfd1755a15594bf86a821bfdcb3dea18d2a7ee5709736df8f3ec"
    );
}

#[test]
fn metadata_hash_ignores_insertion_order() {
    let left = SafeMetadata::from_pairs([
        ("runner".to_string(), "a".to_string()),
        ("profile".to_string(), "release".to_string()),
    ]);
    let right = SafeMetadata::from_pairs([
        ("profile".to_string(), "release".to_string()),
        ("runner".to_string(), "a".to_string()),
    ]);
    assert_eq!(left.stable_hash(), right.stable_hash());
    assert!(left == right);
}

#[test]
fn debug_text_shows_keys_in_order_and_hides_values() {
    let metadata = SafeMetadata::from_pairs([
        ("b".to_string(), "hidden-2".to_string()),
        ("a".to_string(), "hidden-1".to_string()),
    ]);
    assert_eq!(
        metadata.debug_string(),
        "SafeMetadata({\"a\": \"<redacted>\", \"b\": \"<redacted>\"})"
    );
    assert_eq!(SafeMetadata::default().debug_string(), "SafeMetadata({})");
}

#[test]
fn debug_text_does_not_depend_on_values() {
    let one = SafeMetadata::from_pairs([("k".to_string(), "v1".to_string())]);
    let two = SafeMetadata::from_pairs([("k".to_string(), "v2".to_string())]);
    assert_eq!(one.debug_string(), two.debug_string());
}

#[test]
fn metadata_refuses_the_first_secret_like_key_in_key_order() {
    let metadata = SafeMetadata::from_pairs([
        ("zz_token".to_string(), "1".to_string()),
        ("my_API_KEY".to_string(), "2".to_string()),
        ("build".to_string(), "3".to_string()),
    ]);
    assert_eq!(
        metadata.validate(),
        Err(MetadataValidationError::SecretLikeKey("my_API_KEY".to_string()))
    );
}

#[test]
fn secret_markers_are_found_in_any_case() {
    for key in ["SECRET", "AccessToken", "db-Password", "aws_credentials", "x_api_key"] {
        let metadata = SafeMetadata::from_pairs([(key.to_string(), "v".to_string())]);
        assert!(metadata.validate().is_err(), "{key}");
    }
    let fine = SafeMetadata::from_pairs([
        ("api-key".to_string(), "v".to_string()),
        ("tok_en".to_string(), "v".to_string()),
    ]);
    assert_eq!(fine.validate(), Ok(()));
}

#[test]
fn metadata_error_message() {
    let error = MetadataValidationError::SecretLikeKey("token".to_string());
    assert_eq!(error.message(), "metadata key `token` may contain a secret");
}

#[test]
fn manifest_error_messages() {
    assert_eq!(
        ManifestValidationError::EmptyField("producer").message(),
        "field `producer` must not be empty"
    );
    assert_eq!(
        ManifestValidationError::MissingSha256Checksum.message(),
        "manifest requires a sha256 checksum"
    );
    assert_eq!(
        ManifestValidationError::SecretLikeMetadataKey("token".to_string()).message(),
        "metadata key `token` may contain a secret"
    );
    assert_eq!(
        ManifestValidationError::ManifestRefMismatch {
            manifest_id: "m1".to_string(),
            manifest_ref: "m2".to_string()
        }
        .message(),
        "artifact manifest_ref `m2` does not match manifest_id `m1`"
    );
    assert_eq!(
        ManifestValidationError::MalformedSha256 {
            field: "artifact.hash",
            value: "x".to_string()
        }
        .message(),
        "field `artifact.hash` is not a sha256 hash: `x`"
    );
    assert_eq!(
        ManifestValidationError::MalformedTimestamp {
            field: "created_at",
            value: "x".to_string()
        }
        .message(),
        "field `created_at` is not RFC3339: `x`"
    );
}

#[test]
fn valid_manifest_passes_and_has_the_expected_canonical_json() {
    let m = manifest();
    assert_eq!(m.validate(), Ok(()));
    let expected = format!(
        "{{\"manifest_id\":\"manifest_01\",\"artifact\":{{\"artifact_id\":\"art_01\",\"artifact_type\":\"release_asset\",\"producer\":\"gear-cable\",\"version\":\"1.0.0\",\"hash\":\"sha256:{}\",\"manifest_ref\":\"manifest_01\",\"state\":\"active\",\"created_at\":\"2026-06-30T00:00:00Z\"}},\"package_type\":\"binary\",\"checksums\":[{{\"algorithm\":\"sha256\",\"value\":\"{}\"}}],\"provenance_id\":\"prov_01\",\"retention\":{{\"policy_ref\":null,\"expires_at\":null,\"revoked_at\":null,\"delete_after\":null}},\"distribution\":{{\"channels\":[],\"install_floor\":null,\"published_at\":null}},\"metadata\":{{\"values\":{{}}}}}}",
        "a".repeat(64),
        "b".repeat(64)
    );
    assert_eq!(m.canonical_json(), expected);
    assert_eq!(
        m.stable_hash(),
        "sha256:efaff5f7f21fb09b2d668d76660210e5803ccbd0087f8a1f953863a28a757f89"
    );
}

#[test]
fn canonical_json_writes_lists_and_present_options() {
    let mut m = manifest();
    m.checksums.push(Checksum {
        algorithm: ChecksumAlgorithm::Sha256,
        value: "c".to_string(),
    });
    m.distribution.channels = vec!["stable".to_string(), "beta".to_string()];
    m.retention.policy_ref = Some("p".to_string());
    let json = m.canonical_json();
    assert!(json.contains(&format!(
        "\"checksums\":[{{\"algorithm\":\"sha256\",\"value\":\"{}\"}},{{\"algorithm\":\"sha256\",\"value\":\"c\"}}]",
        "b".repeat(64)
    )));
    assert!(json.contains("\"channels\":[\"stable\",\"beta\"]"));
    assert!(json.contains("\"policy_ref\":\"p\""));
}

#[test]
fn stable_hash_is_itself_a_valid_artifact_hash() {
    let mut a = artifact();
    a.hash = manifest().stable_hash();
    assert_eq!(a.validate(), Ok(()));
}

#[test]
fn blank_means_only_unicode_whitespace() {
    let mut a = artifact();
    a.version = "\u{3000}\t\u{a0}".to_string();
    assert_eq!(a.validate(), Err(ManifestValidationError::EmptyField("version")));
    a.version = "\u{200b}".to_string();
    assert_eq!(a.validate(), Ok(()));
}

#[test]
fn reference_checks_run_in_order() {
    let mut a = artifact();
    a.artifact_id = String::new();
    a.producer = String::new();
    assert_eq!(a.validate(), Err(ManifestValidationError::EmptyField("artifact_id")));
    let mut a = artifact();
    a.manifest_ref = " ".to_string();
    a.hash = "nope".to_string();
    assert_eq!(a.validate(), Err(ManifestValidationError::EmptyField("manifest_ref")));
}

#[test]
fn artifact_hash_needs_prefix_and_sixty_four_hex_digits() {
    let mut a = artifact();
    a.hash = "A".repeat(64);
    assert!(a.validate().is_err());
    a.hash = format!("sha256:{}", "F".repeat(64));
    assert_eq!(a.validate(), Ok(()));
    a.hash = format!("sha256:{}", "f".repeat(63));
    assert_eq!(
        a.validate(),
        Err(ManifestValidationError::MalformedSha256 {
            field: "artifact.hash",
            value: format!("sha256:{}", "f".repeat(63))
        })
    );
    a.hash = format!("sha256:{}g", "f".repeat(63));
    assert!(a.validate().is_err());
}

#[test]
fn checksum_values_may_be_bare_or_prefixed() {
    let mut m = manifest();
    m.checksums = vec![
        Checksum {
            algorithm: ChecksumAlgorithm::Sha256,
            value: "0".repeat(64),
        },
        Checksum {
            algorithm: ChecksumAlgorithm::Sha256,
            value: format!("sha256:{}", "0".repeat(64)),
        },
        Checksum {
            algorithm: ChecksumAlgorithm::Sha256,
            value: "bad".to_string(),
        },
        Checksum {
            algorithm: ChecksumAlgorithm::Sha256,
            value: "worse".to_string(),
        },
    ];
    assert_eq!(
        m.validate(),
        Err(ManifestValidationError::MalformedSha256 {
            field: "checksums.sha256",
            value: "bad".to_string()
        })
    );
}

#[test]
fn timestamps_accept_offsets_and_refuse_other_forms() {
    let mut a = artifact();
    a.created_at = "2026-06-30T12:30:00+02:00".to_string();
    assert_eq!(a.validate(), Ok(()));
    a.created_at = "2026-06-30T12:30:00".to_string();
    assert!(a.validate().is_err());
    a.created_at = "2026-06-30".to_string();
    assert!(a.validate().is_err());
}

#[test]
fn retention_timestamps_are_checked_in_order() {
    let mut m = manifest();
    m.retention.revoked_at = Some("later".to_string());
    m.retention.delete_after = Some("never".to_string());
    assert_eq!(
        m.validate(),
        Err(ManifestValidationError::MalformedTimestamp {
            field: "retention.revoked_at",
            value: "later".to_string()
        })
    );
    m.retention.revoked_at = Some("2026-07-01T00:00:00Z".to_string());
    assert_eq!(
        m.validate(),
        Err(ManifestValidationError::MalformedTimestamp {
            field: "retention.delete_after",
            value: "never".to_string()
        })
    );
}

#[test]
fn given_verdicts_decide_the_timestamp_checks() {
    let m = manifest();
    assert_eq!(m.validate_given(&all_readable()), Ok(()));
    let mut t = all_readable();
    t.created_at = false;
    assert_eq!(
        m.validate_given(&t),
        Err(ManifestValidationError::MalformedTimestamp {
            field: "created_at",
            value: "2026-06-30T00:00:00Z".to_string()
        })
    );
    let mut t = all_readable();
    t.expires_at = false;
    assert_eq!(m.validate_given(&t), Ok(()));
    assert_eq!(m.timestamp_checks(), all_readable());
    let a = artifact();
    assert_eq!(
        a.validate_given(false),
        Err(ManifestValidationError::MalformedTimestamp {
            field: "created_at",
            value: "2026-06-30T00:00:00Z".to_string()
        })
    );
}

#[test]
fn manifest_ids_are_checked_before_metadata() {
    let mut m = manifest();
    m.provenance_id = "\n".to_string();
    m.metadata = SafeMetadata::from_pairs([("secret".to_string(), "v".to_string())]);
    assert_eq!(
        m.validate(),
        Err(ManifestValidationError::EmptyField("provenance_id"))
    );
    m.manifest_id = String::new();
    assert_eq!(
        m.validate(),
        Err(ManifestValidationError::EmptyField("manifest_id"))
    );
}

#[test]
fn metadata_is_checked_before_the_artifact() {
    let mut m = manifest();
    m.artifact.hash = "bad".to_string();
    m.metadata = SafeMetadata::from_pairs([("Password".to_string(), "v".to_string())]);
    assert_eq!(
        m.validate(),
        Err(ManifestValidationError::SecretLikeMetadataKey("Password".to_string()))
    );
}

#[test]
fn clone_keeps_the_metadata() {
    let metadata = SafeMetadata::from_pairs([("k".to_string(), "v".to_string())]);
    let copy = metadata.clone();
    assert!(copy == metadata);
    assert_eq!(copy.canonical_json(), "{\"k\":\"v\"}");
}

#[test]
fn listing_pairs_and_rebuilding_gives_the_same_metadata() {
    let metadata = SafeMetadata::from_pairs([
        ("z".to_string(), "1".to_string()),
        ("m".to_string(), "2".to_string()),
    ]);
    let pairs = metadata.pairs();
    assert_eq!(
        pairs,
        vec![
            ("m".to_string(), "2".to_string()),
            ("z".to_string(), "1".to_string())
        ]
    );
    assert!(SafeMetadata::from_pair_slice(&pairs) == metadata);
}
