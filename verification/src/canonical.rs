//! The canonical JSON text of artifact contracts: compact, fields in
//! declaration order, enum variants as `snake_case` strings, absent values as
//! `null`, and metadata keys in ascending order. Its SHA-256 digest is the
//! contract's stable hash.

use vstd::prelude::*;
use vstd::utf8::encode_utf8;

use crate::artifact::{
    ArtifactManifest, ArtifactRef, ArtifactState, ArtifactType, Checksum, ChecksumAlgorithm,
    DistributionMetadata, PackageType, RetentionMetadata,
};
use crate::digest::{stable_hash_text, stable_json_hash};
use crate::metadata::string_map_json;
use crate::text::is_sha256_hash;

verus! {

/// The JSON string literal of a text, quoted and escaped as `serde_json` writes it.
pub uninterp spec fn json_string(s: Seq<char>) -> Seq<char>;

/// Calls `serde_json::to_string` on a string slice. Trusted: the result is
/// `json_string` of the text. Serializing a string cannot fail.
#[verifier::external_body]
fn json_string_literal(s: &str) -> (j: String)
    ensures
        j@ == json_string(s@),
{
    serde_json::to_string(s).expect("a string serializes")
}

/// Appends the JSON string literal of `s`.
pub(crate) fn push_json_string(out: &mut String, s: &str)
    ensures
        final(out)@ == old(out)@ + json_string(s@),
{
    let quoted = json_string_literal(s);
    out.append(quoted.as_str());
}

/// Items separated by commas.
pub open spec fn join_commas(items: Seq<Seq<char>>) -> Seq<char>
    decreases items.len(),
{
    if items.len() == 0 {
        seq![]
    } else if items.len() == 1 {
        items[0]
    } else {
        join_commas(items.drop_last()) + ","@ + items.last()
    }
}

/// A JSON string, or `null` when absent.
pub open spec fn json_optional(o: Option<String>) -> Seq<char> {
    match o {
        Some(s) => json_string(s@),
        None => "null"@,
    }
}

pub open spec fn artifact_type_json(t: ArtifactType) -> Seq<char> {
    match t {
        ArtifactType::SpecPackage => "\"spec_package\""@,
        ArtifactType::HandoffPayload => "\"handoff_payload\""@,
        ArtifactType::CuratedExport => "\"curated_export\""@,
        ArtifactType::LearningExport => "\"learning_export\""@,
        ArtifactType::ReleaseAsset => "\"release_asset\""@,
        ArtifactType::InspectionReport => "\"inspection_report\""@,
    }
}

pub open spec fn artifact_state_json(s: ArtifactState) -> Seq<char> {
    match s {
        ArtifactState::Active => "\"active\""@,
        ArtifactState::Revoked => "\"revoked\""@,
        ArtifactState::Superseded => "\"superseded\""@,
        ArtifactState::Deleted => "\"deleted\""@,
    }
}

pub open spec fn package_type_json(p: PackageType) -> Seq<char> {
    match p {
        PackageType::JsonBundle => "\"json_bundle\""@,
        PackageType::Tar => "\"tar\""@,
        PackageType::Zip => "\"zip\""@,
        PackageType::Binary => "\"binary\""@,
        PackageType::Container => "\"container\""@,
        PackageType::RegistryPackage => "\"registry_package\""@,
    }
}

pub open spec fn algorithm_json(a: ChecksumAlgorithm) -> Seq<char> {
    match a {
        ChecksumAlgorithm::Sha256 => "\"sha256\""@,
    }
}

pub open spec fn artifact_ref_json(a: ArtifactRef) -> Seq<char> {
    "{\"artifact_id\":"@ + json_string(a.artifact_id@) + ",\"artifact_type\":"@ + artifact_type_json(
        a.artifact_type,
    ) + ",\"producer\":"@ + json_string(a.producer@) + ",\"version\":"@ + json_string(a.version@)
        + ",\"hash\":"@ + json_string(a.hash@) + ",\"manifest_ref\":"@ + json_string(
        a.manifest_ref@,
    ) + ",\"state\":"@ + artifact_state_json(a.state) + ",\"created_at\":"@ + json_string(
        a.created_at@,
    ) + "}"@
}

pub open spec fn checksum_json(c: Checksum) -> Seq<char> {
    "{\"algorithm\":"@ + algorithm_json(c.algorithm) + ",\"value\":"@ + json_string(c.value@) + "}"@
}

pub open spec fn checksums_json(cs: Seq<Checksum>) -> Seq<char> {
    "["@ + join_commas(cs.map_values(|c: Checksum| checksum_json(c))) + "]"@
}

pub open spec fn retention_json(r: RetentionMetadata) -> Seq<char> {
    "{\"policy_ref\":"@ + json_optional(r.policy_ref) + ",\"expires_at\":"@ + json_optional(
        r.expires_at,
    ) + ",\"revoked_at\":"@ + json_optional(r.revoked_at) + ",\"delete_after\":"@ + json_optional(
        r.delete_after,
    ) + "}"@
}

pub open spec fn strings_json(v: Seq<String>) -> Seq<char> {
    "["@ + join_commas(v.map_values(|s: String| json_string(s@))) + "]"@
}

pub open spec fn distribution_json(d: DistributionMetadata) -> Seq<char> {
    "{\"channels\":"@ + strings_json(d.channels@) + ",\"install_floor\":"@ + json_optional(
        d.install_floor,
    ) + ",\"published_at\":"@ + json_optional(d.published_at) + "}"@
}

/// The canonical JSON text of a manifest.
pub open spec fn manifest_json(m: ArtifactManifest) -> Seq<char> {
    "{\"manifest_id\":"@ + json_string(m.manifest_id@) + ",\"artifact\":"@ + artifact_ref_json(
        m.artifact,
    ) + ",\"package_type\":"@ + package_type_json(m.package_type) + ",\"checksums\":"@
        + checksums_json(m.checksums@) + ",\"provenance_id\":"@ + json_string(m.provenance_id@)
        + ",\"retention\":"@ + retention_json(m.retention) + ",\"distribution\":"@
        + distribution_json(m.distribution) + ",\"metadata\":{\"values\":"@ + string_map_json(
        m.metadata@,
    ) + "}}"@
}

/// The stable hash of a manifest: `sha256:` and the lower-case hex of the
/// SHA-256 digest of the UTF-8 bytes of its canonical JSON text.
pub open spec fn manifest_hash(m: ArtifactManifest) -> Seq<char> {
    stable_hash_text(encode_utf8(manifest_json(m)))
}

fn push_optional(out: &mut String, o: &Option<String>)
    ensures
        final(out)@ == old(out)@ + json_optional(*o),
{
    match o {
        Some(s) => push_json_string(out, s.as_str()),
        None => out.append("null"),
    }
}

fn push_artifact_ref(out: &mut String, a: &ArtifactRef)
    ensures
        final(out)@ == old(out)@ + artifact_ref_json(*a),
{
    let ghost start = out@;
    out.append("{\"artifact_id\":");
    push_json_string(out, a.artifact_id.as_str());
    out.append(",\"artifact_type\":");
    match a.artifact_type {
        ArtifactType::SpecPackage => out.append("\"spec_package\""),
        ArtifactType::HandoffPayload => out.append("\"handoff_payload\""),
        ArtifactType::CuratedExport => out.append("\"curated_export\""),
        ArtifactType::LearningExport => out.append("\"learning_export\""),
        ArtifactType::ReleaseAsset => out.append("\"release_asset\""),
        ArtifactType::InspectionReport => out.append("\"inspection_report\""),
    }
    out.append(",\"producer\":");
    push_json_string(out, a.producer.as_str());
    out.append(",\"version\":");
    push_json_string(out, a.version.as_str());
    out.append(",\"hash\":");
    push_json_string(out, a.hash.as_str());
    out.append(",\"manifest_ref\":");
    push_json_string(out, a.manifest_ref.as_str());
    out.append(",\"state\":");
    match a.state {
        ArtifactState::Active => out.append("\"active\""),
        ArtifactState::Revoked => out.append("\"revoked\""),
        ArtifactState::Superseded => out.append("\"superseded\""),
        ArtifactState::Deleted => out.append("\"deleted\""),
    }
    out.append(",\"created_at\":");
    push_json_string(out, a.created_at.as_str());
    out.append("}");
    assert(out@ =~= start + artifact_ref_json(*a));
}

fn push_checksums(out: &mut String, cs: &Vec<Checksum>)
    ensures
        final(out)@ == old(out)@ + checksums_json(cs@),
{
    let ghost start = out@;
    let ghost items = cs@.map_values(|c: Checksum| checksum_json(c));
    out.append("[");
    let n = cs.len();
    let mut i: usize = 0;
    assert(items.take(0) =~= Seq::<Seq<char>>::empty());
    while i < n
        invariant
            n == cs@.len(),
            items == cs@.map_values(|c: Checksum| checksum_json(c)),
            i <= n,
            out@ == start + "["@ + join_commas(items.take(i as int)),
        decreases n - i,
    {
        if i > 0 {
            out.append(",");
        }
        out.append("{\"algorithm\":");
        match cs[i].algorithm {
            ChecksumAlgorithm::Sha256 => out.append("\"sha256\""),
        }
        out.append(",\"value\":");
        push_json_string(out, cs[i].value.as_str());
        out.append("}");
        assert(items.take(i + 1).drop_last() =~= items.take(i as int));
        assert(items[i as int] == checksum_json(cs@[i as int]));
        assert(out@ =~= start + "["@ + join_commas(items.take(i + 1)));
        i = i + 1;
    }
    out.append("]");
    assert(items.take(n as int) =~= items);
    assert(out@ =~= start + checksums_json(cs@));
}

fn push_strings(out: &mut String, v: &Vec<String>)
    ensures
        final(out)@ == old(out)@ + strings_json(v@),
{
    let ghost start = out@;
    let ghost items = v@.map_values(|s: String| json_string(s@));
    out.append("[");
    let n = v.len();
    let mut i: usize = 0;
    assert(items.take(0) =~= Seq::<Seq<char>>::empty());
    while i < n
        invariant
            n == v@.len(),
            items == v@.map_values(|s: String| json_string(s@)),
            i <= n,
            out@ == start + "["@ + join_commas(items.take(i as int)),
        decreases n - i,
    {
        if i > 0 {
            out.append(",");
        }
        push_json_string(out, v[i].as_str());
        assert(items.take(i + 1).drop_last() =~= items.take(i as int));
        assert(out@ =~= start + "["@ + join_commas(items.take(i + 1)));
        i = i + 1;
    }
    out.append("]");
    assert(items.take(n as int) =~= items);
    assert(out@ =~= start + strings_json(v@));
}

fn push_retention(out: &mut String, r: &RetentionMetadata)
    ensures
        final(out)@ == old(out)@ + retention_json(*r),
{
    let ghost start = out@;
    out.append("{\"policy_ref\":");
    push_optional(out, &r.policy_ref);
    out.append(",\"expires_at\":");
    push_optional(out, &r.expires_at);
    out.append(",\"revoked_at\":");
    push_optional(out, &r.revoked_at);
    out.append(",\"delete_after\":");
    push_optional(out, &r.delete_after);
    out.append("}");
    assert(out@ =~= start + retention_json(*r));
}

fn push_distribution(out: &mut String, d: &DistributionMetadata)
    ensures
        final(out)@ == old(out)@ + distribution_json(*d),
{
    let ghost start = out@;
    out.append("{\"channels\":");
    push_strings(out, &d.channels);
    out.append(",\"install_floor\":");
    push_optional(out, &d.install_floor);
    out.append(",\"published_at\":");
    push_optional(out, &d.published_at);
    out.append("}");
    assert(out@ =~= start + distribution_json(*d));
}

impl ArtifactManifest {
    /// The canonical JSON text of the manifest.
    pub fn canonical_json(&self) -> (j: String)
        ensures
            j@ == manifest_json(*self),
    {
        let mut out = String::new();
        out.append("{\"manifest_id\":");
        push_json_string(&mut out, self.manifest_id.as_str());
        out.append(",\"artifact\":");
        push_artifact_ref(&mut out, &self.artifact);
        out.append(",\"package_type\":");
        match self.package_type {
            PackageType::JsonBundle => out.append("\"json_bundle\""),
            PackageType::Tar => out.append("\"tar\""),
            PackageType::Zip => out.append("\"zip\""),
            PackageType::Binary => out.append("\"binary\""),
            PackageType::Container => out.append("\"container\""),
            PackageType::RegistryPackage => out.append("\"registry_package\""),
        }
        out.append(",\"checksums\":");
        push_checksums(&mut out, &self.checksums);
        out.append(",\"provenance_id\":");
        push_json_string(&mut out, self.provenance_id.as_str());
        out.append(",\"retention\":");
        push_retention(&mut out, &self.retention);
        out.append(",\"distribution\":");
        push_distribution(&mut out, &self.distribution);
        out.append(",\"metadata\":{\"values\":");
        self.metadata.push_canonical_json(&mut out);
        out.append("}}");
        assert(out@ =~= manifest_json(*self));
        out
    }

    /// The stable hash of the manifest: `sha256:` and the lower-case hex of
    /// the SHA-256 digest of its canonical JSON text. It is itself a
    /// well-formed `sha256:` hash.
    pub fn stable_hash(&self) -> (h: String)
        ensures
            h@ == manifest_hash(*self),
            is_sha256_hash(h@),
    {
        let json = self.canonical_json();
        stable_json_hash(json.as_str().as_bytes())
    }
}

} // verus!
