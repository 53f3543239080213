# gear_depot

Artifact references and manifests for a supply-chain depot, verified with Verus.

- `src/artifact.rs` — the contract types and their validation rules
  (`ArtifactRef::validate`, `ArtifactManifest::validate`, and the `validate_given`
  forms that take the RFC 3339 verdicts as arguments).
- `src/metadata.rs` — `SafeMetadata`: ordered string pairs, secret-like key
  refusal, redacted debug text, stable hash.
- `src/canonical.rs` — the canonical JSON text of a manifest and its stable hash.
- `src/digest.rs` — SHA-256 (through `sha2`) and lower-case hex.
- `src/text.rs` — character-level rules: blank text, hex digits, `sha256:` hashes,
  secret-like keys, the order of texts.
- `src/error.rs`, `src/project.rs` — errors with their messages; the project card.
- `src/laws.rs` — properties of the library as a whole, proved.
- `app/lib.rs` — serde mirrors of the types, `Display`/`Error` for the errors and
  `Debug` for metadata, converting to and from the library's types.

Checksum values are accepted as 64 hex digits, bare or after `sha256:`.
