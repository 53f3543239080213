//! What holds of the library as a whole.

use vstd::prelude::*;

use crate::artifact::{
    first_bad_checksum, is_checksum_value, rfc3339_parses, ArtifactManifest, ArtifactRef,
    TimestampChecks,
};
use crate::artifact::{ArtifactState, ArtifactType, PackageType};
use crate::canonical::{
    artifact_ref_json, artifact_state_json, artifact_type_json, checksum_json, checksums_json, distribution_json,
    join_commas, json_string, manifest_hash, manifest_json, package_type_json, retention_json,
    strings_json,
};
use crate::error::ValidationFailure;
use crate::metadata::{
    first_secret_key, keys_ascending, keys_distinct, keys_of, lemma_ascending_determined,
    lemma_pairs_map_of_distinct, metadata_hash, pairs_map, redacted_debug, string_map_json,
    SafeMetadata,
};
use crate::text::{
    ascii_lower, ascii_lowercase, is_bare_sha256_hex, is_blank, is_secret_like, is_sha256_hash,
    occurs_at, text_lt,
};

verus! {

/// Metadata is determined by what it maps: two metadata values with the same
/// key/value map hold the same entries, so they have the same stable hash and
/// the same debug text, whatever order the pairs were given in.
pub proof fn law_metadata_determined_by_contents(m1: SafeMetadata, m2: SafeMetadata)
    requires
        keys_ascending(m1@),
        keys_ascending(m2@),
        pairs_map(m1@) == pairs_map(m2@),
    ensures
        m1@ == m2@,
        metadata_hash(m1@) == metadata_hash(m2@),
        redacted_debug(keys_of(m1@)) == redacted_debug(keys_of(m2@)),
{
    lemma_ascending_determined(m1@, m2@);
}

/// The stable hash of a manifest does not depend on the order in which its
/// metadata pairs were given: manifests that differ only in metadata with the
/// same key/value map have the same stable hash.
pub proof fn law_manifest_hash_ignores_metadata_order(m1: ArtifactManifest, m2: ArtifactManifest)
    requires
        m2 == (ArtifactManifest { metadata: m2.metadata, ..m1 }),
        keys_ascending(m1.metadata@),
        keys_ascending(m2.metadata@),
        pairs_map(m1.metadata@) == pairs_map(m2.metadata@),
    ensures
        manifest_hash(m1) == manifest_hash(m2),
{
    lemma_ascending_determined(m1.metadata@, m2.metadata@);
}

/// Insertion order does not matter: two lists of pairs with distinct keys and
/// the same pairs build the same map.
pub proof fn law_pair_order_irrelevant(a: Seq<(Seq<char>, Seq<char>)>, b: Seq<(Seq<char>, Seq<char>)>)
    requires
        keys_distinct(a),
        keys_distinct(b),
        forall|p: (Seq<char>, Seq<char>)| a.contains(p) <==> b.contains(p),
    ensures
        pairs_map(a) == pairs_map(b),
{
    lemma_pairs_map_of_distinct(a);
    lemma_pairs_map_of_distinct(b);
    assert forall|k: Seq<char>| #[trigger] pairs_map(a).contains_key(k) implies pairs_map(b).contains_key(k)
        && pairs_map(b)[k] == pairs_map(a)[k] by {
        let i = choose|i: int| 0 <= i < a.len() && a[i].0 == k;
        assert(a.contains(a[i]));
        let j = choose|j: int| 0 <= j < b.len() && b[j] == a[i];
        assert(pairs_map(b).contains_key(b[j].0));
    }
    assert forall|k: Seq<char>| #[trigger] pairs_map(b).contains_key(k) implies pairs_map(a).contains_key(k) by {
        let j = choose|j: int| 0 <= j < b.len() && b[j].0 == k;
        assert(b.contains(b[j]));
        let i = choose|i: int| 0 <= i < a.len() && a[i] == b[j];
        assert(pairs_map(a).contains_key(a[i].0));
    }
    assert(pairs_map(a) =~= pairs_map(b));
}

/// Metadata is refused exactly when one of its keys looks like the name of a
/// secret; the key reported is such a key, and no smaller key is one.
pub proof fn law_metadata_refusal(e: Seq<(Seq<char>, Seq<char>)>)
    requires
        keys_ascending(e),
    ensures
        first_secret_key(e) is None <==> forall|i: int| 0 <= i < e.len() ==> !is_secret_like(#[trigger] e[i].0),
        first_secret_key(e) matches Some(k) ==> exists|i: int|
            0 <= i < e.len() && e[i].0 == k && is_secret_like(k) && forall|j: int|
                0 <= j < e.len() && #[trigger] text_lt(e[j].0, k) ==> !is_secret_like(e[j].0),
    decreases e.len(),
{
    if e.len() > 0 {
        let d = e.drop_first();
        assert(keys_ascending(d)) by {
            assert forall|i: int, j: int| 0 <= i < j < d.len() implies text_lt(
                #[trigger] d[i].0,
                #[trigger] d[j].0,
            ) by {
                assert(d[i] == e[i + 1] && d[j] == e[j + 1]);
            }
        }
        law_metadata_refusal(d);
        if is_secret_like(e[0].0) {
            assert forall|j: int| 0 <= j < e.len() && #[trigger] text_lt(e[j].0, e[0].0) implies !is_secret_like(
                e[j].0,
            ) by {
                if j > 0 {
                    crate::text::lemma_text_lt_total(e[0].0, e[j].0);
                } else {
                    crate::text::lemma_text_lt_irreflexive(e[0].0);
                }
            }
        } else {
            assert((forall|i: int| 0 <= i < e.len() ==> !is_secret_like(#[trigger] e[i].0)) <==> (
            forall|i: int| 0 <= i < d.len() ==> !is_secret_like(#[trigger] d[i].0))) by {
                if forall|i: int| 0 <= i < d.len() ==> !is_secret_like(#[trigger] d[i].0) {
                    assert forall|i: int| 0 <= i < e.len() implies !is_secret_like(#[trigger] e[i].0) by {
                        if i > 0 {
                            assert(e[i] == d[i - 1]);
                        }
                    }
                }
                if forall|i: int| 0 <= i < e.len() ==> !is_secret_like(#[trigger] e[i].0) {
                    assert forall|i: int| 0 <= i < d.len() implies !is_secret_like(#[trigger] d[i].0) by {
                        assert(e[i + 1] == d[i]);
                    }
                }
            }
            if first_secret_key(e) is Some {
                let k = first_secret_key(e)->0;
                let i = choose|i: int|
                    0 <= i < d.len() && d[i].0 == k && is_secret_like(k) && forall|j: int|
                        0 <= j < d.len() && #[trigger] text_lt(d[j].0, k) ==> !is_secret_like(d[j].0);
                assert(e[i + 1] == d[i]);
                assert forall|j: int| 0 <= j < e.len() && #[trigger] text_lt(e[j].0, k) implies !is_secret_like(
                    e[j].0,
                ) by {
                    if j > 0 {
                        assert(e[j] == d[j - 1]);
                    }
                }
            }
        }
    }
}

/// A reported secret-like key is secret-like and is one of the keys.
pub proof fn law_metadata_refusal_any(e: Seq<(Seq<char>, Seq<char>)>)
    ensures
        first_secret_key(e) matches Some(k) ==> is_secret_like(k) && exists|i: int|
            0 <= i < e.len() && #[trigger] e[i].0 == k,
    decreases e.len(),
{
    if e.len() > 0 && !is_secret_like(e[0].0) {
        law_metadata_refusal_any(e.drop_first());
        if first_secret_key(e) is Some {
            let k = first_secret_key(e)->0;
            let i = choose|i: int| 0 <= i < e.drop_first().len() && #[trigger] e.drop_first()[i].0 == k;
            assert(e[i + 1] == e.drop_first()[i]);
        }
    } else if e.len() > 0 {
        assert(e[0].0 == e[0].0);
    }
}

/// A reference passes validation exactly when its required fields are not
/// blank, its hash is `sha256:` and 64 hex digits, and `created_at` reads as
/// RFC 3339.
pub proof fn law_artifact_rules(a: ArtifactRef, created_at_readable: bool)
    ensures
        a.check(created_at_readable) is Ok <==> {
            &&& !is_blank(a.artifact_id@)
            &&& !is_blank(a.producer@)
            &&& !is_blank(a.version@)
            &&& !is_blank(a.manifest_ref@)
            &&& is_sha256_hash(a.hash@)
            &&& created_at_readable
        },
{
}

/// No value of a list of checksums is refused exactly when every value is
/// 64 hex digits, bare or after `sha256:`.
pub proof fn law_checksum_rules(cs: Seq<crate::artifact::Checksum>)
    ensures
        first_bad_checksum(cs) is None <==> forall|i: int| 0 <= i < cs.len() ==> is_checksum_value(#[trigger] cs[i].value@),
        first_bad_checksum(cs) matches Some(v) ==> !is_checksum_value(v),
    decreases cs.len(),
{
    if cs.len() > 0 {
        let d = cs.drop_first();
        law_checksum_rules(d);
        assert forall|i: int| 0 <= i < d.len() implies #[trigger] d[i] == cs[i + 1] by {}
        if forall|i: int| 0 <= i < d.len() ==> is_checksum_value(#[trigger] d[i].value@) {
            if is_checksum_value(cs[0].value@) {
                assert forall|i: int| 0 <= i < cs.len() implies is_checksum_value(#[trigger] cs[i].value@) by {
                    if i > 0 {
                        assert(cs[i] == d[i - 1]);
                    }
                }
            }
        } else {
            let j = choose|j: int| 0 <= j < d.len() && !is_checksum_value(#[trigger] d[j].value@);
            assert(cs[j + 1] == d[j]);
        }
    }
}

/// A manifest passes validation exactly when every rule holds: its ids are
/// not blank, no metadata key looks like a secret, its artifact passes, the
/// artifact points back at the manifest, every present timestamp reads as
/// RFC 3339, and it has at least one checksum, every one of which is 64 hex
/// digits.
pub proof fn law_manifest_rules(m: ArtifactManifest, t: TimestampChecks)
    ensures
        m.check(t) is Ok <==> {
            &&& !is_blank(m.manifest_id@)
            &&& !is_blank(m.provenance_id@)
            &&& first_secret_key(m.metadata@) is None
            &&& m.artifact.check(t.created_at) is Ok
            &&& m.artifact.manifest_ref@ == m.manifest_id@
            &&& m.retention.expires_at is Some ==> t.expires_at
            &&& m.retention.revoked_at is Some ==> t.revoked_at
            &&& m.retention.delete_after is Some ==> t.delete_after
            &&& m.distribution.published_at is Some ==> t.published_at
            &&& m.checksums@.len() > 0
            &&& forall|i: int| 0 <= i < m.checksums@.len() ==> is_checksum_value(#[trigger] m.checksums@[i].value@)
        },
{
    law_checksum_rules(m.checksums@);
}

proof fn lemma_debug_entries_hold_each(keys: Seq<Seq<char>>, i: int) -> (parts: (Seq<char>, Seq<char>))
    requires
        0 <= i < keys.len(),
    ensures
        crate::metadata::debug_entries(keys) == parts.0 + (crate::metadata::debug_text(keys[i])
            + ": \"<redacted>\""@) + parts.1,
    decreases keys.len(),
{
    let item = crate::metadata::debug_text(keys[i]) + ": \"<redacted>\""@;
    if keys.len() == 1 {
        assert(crate::metadata::debug_entries(keys) =~= Seq::<char>::empty() + item + Seq::<char>::empty());
        (Seq::<char>::empty(), Seq::<char>::empty())
    } else if i == keys.len() - 1 {
        let pre = crate::metadata::debug_entries(keys.drop_last()) + ", "@;
        assert(crate::metadata::debug_entries(keys) =~= pre + item + Seq::<char>::empty());
        (pre, Seq::<char>::empty())
    } else {
        let (pre, post) = lemma_debug_entries_hold_each(keys.drop_last(), i);
        let last = crate::metadata::debug_text(keys.last()) + ": \"<redacted>\""@;
        let post2 = post + ", "@ + last;
        assert(crate::metadata::debug_entries(keys) =~= pre + item + post2);
        (pre, post2)
    }
}

/// The debug text of metadata shows every key, each followed by
/// `: "<redacted>"` in place of its value.
pub proof fn law_debug_shows_every_key_redacted(keys: Seq<Seq<char>>, i: int)
    requires
        0 <= i < keys.len(),
    ensures
        exists|pre: Seq<char>, post: Seq<char>| redacted_debug(keys) == #[trigger] (pre + (
        crate::metadata::debug_text(keys[i]) + ": \"<redacted>\""@) + post),
{
    let (pre, post) = lemma_debug_entries_hold_each(keys, i);
    let item = crate::metadata::debug_text(keys[i]) + ": \"<redacted>\""@;
    assert(redacted_debug(keys) =~= ("SafeMetadata({"@ + pre) + item + (post + "})"@));
}

/// The debug text of metadata does not depend on its values: replacing the
/// value of any entry leaves it unchanged.
pub proof fn law_debug_ignores_values(e: Seq<(Seq<char>, Seq<char>)>, i: int, v: Seq<char>)
    requires
        0 <= i < e.len(),
    ensures
        redacted_debug(keys_of(e.update(i, (e[i].0, v)))) == redacted_debug(keys_of(e)),
{
    assert(keys_of(e.update(i, (e[i].0, v))) =~= keys_of(e));
}

/// Each timestamp verdict of a manifest is the `time` crate's verdict on that
/// manifest's own field: `created_at` of the artifact, and each optional
/// retention or distribution timestamp when present (an absent one passes).
pub proof fn law_timestamp_verdicts_read_their_own_fields(m: ArtifactManifest)
    ensures
        m.readable_timestamps().created_at == rfc3339_parses(m.artifact.created_at@),
        m.readable_timestamps().expires_at == (m.retention.expires_at is Some ==> rfc3339_parses(
            m.retention.expires_at->0@,
        )),
        m.readable_timestamps().revoked_at == (m.retention.revoked_at is Some ==> rfc3339_parses(
            m.retention.revoked_at->0@,
        )),
        m.readable_timestamps().delete_after == (m.retention.delete_after is Some
            ==> rfc3339_parses(m.retention.delete_after->0@)),
        m.readable_timestamps().published_at == (m.distribution.published_at is Some
            ==> rfc3339_parses(m.distribution.published_at->0@)),
{
}

/// A manifest that validation accepts has every present timestamp readable as
/// RFC 3339, by the `time` crate's verdict on that very field.
pub proof fn law_accepted_manifest_has_readable_timestamps(m: ArtifactManifest)
    requires
        m.check(m.readable_timestamps()) is Ok,
    ensures
        rfc3339_parses(m.artifact.created_at@),
        m.retention.expires_at matches Some(v) ==> rfc3339_parses(v@),
        m.retention.revoked_at matches Some(v) ==> rfc3339_parses(v@),
        m.retention.delete_after matches Some(v) ==> rfc3339_parses(v@),
        m.distribution.published_at matches Some(v) ==> rfc3339_parses(v@),
{
    law_manifest_rules(m, m.readable_timestamps());
}

/// An unreadable `retention.expires_at` is reported, with its own text, once
/// every earlier rule passes.
pub proof fn law_unreadable_expiry_is_reported(m: ArtifactManifest)
    requires
        !is_blank(m.manifest_id@),
        !is_blank(m.provenance_id@),
        first_secret_key(m.metadata@) is None,
        m.artifact.check(rfc3339_parses(m.artifact.created_at@)) is Ok,
        m.artifact.manifest_ref@ == m.manifest_id@,
        m.retention.expires_at is Some,
        !rfc3339_parses(m.retention.expires_at->0@),
    ensures
        m.check(m.readable_timestamps()) == Err::<(), ValidationFailure>(
            ValidationFailure::MalformedTimestamp {
                field: "retention.expires_at"@,
                value: m.retention.expires_at->0@,
            },
        ),
{
}

/// True for the ASCII hexadecimal digits `0-9`, `a-f` and `A-F`.
pub open spec fn hex_char_in_either_case(c: char) -> bool {
    seq![
        '0', '1', '2', '3', '4', '5', '6', '7', '8', '9', 'a', 'b', 'c', 'd', 'e', 'f', 'A', 'B',
        'C', 'D', 'E', 'F',
    ].contains(c)
}

/// A hash string is `sha256:` followed by exactly 64 hex digits: whatever
/// follows the prefix, it is accepted exactly when it is 64 characters long
/// and every character is a hex digit, and nothing without the prefix is
/// accepted.
pub proof fn law_sha256_hash_is_prefix_and_64_hex_digits(s: Seq<char>, digits: Seq<char>)
    ensures
        is_sha256_hash(seq!['s', 'h', 'a', '2', '5', '6', ':'] + digits) <==> (digits.len() == 64
            && forall|i: int| 0 <= i < digits.len() ==> hex_char_in_either_case(#[trigger] digits[i])),
        is_sha256_hash(s) ==> s.len() == 71 && s =~= seq!['s', 'h', 'a', '2', '5', '6', ':'] + s.skip(7),
        is_bare_sha256_hex(digits) <==> (digits.len() == 64 && forall|i: int|
            0 <= i < digits.len() ==> hex_char_in_either_case(#[trigger] digits[i])),
{
    let prefix = seq!['s', 'h', 'a', '2', '5', '6', ':'];
    let t = prefix + digits;
    assert(t.subrange(0, 7) =~= prefix);
    assert forall|c: char| #[trigger] hex_char_in_either_case(c) <==> crate::text::is_hex_digit(c) by {
        let hs = seq![
            '0', '1', '2', '3', '4', '5', '6', '7', '8', '9', 'a', 'b', 'c', 'd', 'e', 'f', 'A', 'B',
            'C', 'D', 'E', 'F',
        ];
        if crate::text::is_hex_digit(c) {
            if '0' <= c && c <= '9' {
                assert(hs[(c as int) - 48] == c);
            } else if 'a' <= c && c <= 'f' {
                assert(hs[(c as int) - 87] == c);
            } else {
                assert(hs[(c as int) - 49] == c);
            }
        }
    }
    if is_sha256_hash(t) {
        assert forall|i: int| 0 <= i < digits.len() implies hex_char_in_either_case(#[trigger] digits[i]) by {
            assert(t[i + 7] == digits[i]);
        }
    }
    if digits.len() == 64 && forall|i: int| 0 <= i < digits.len() ==> hex_char_in_either_case(#[trigger] digits[i]) {
        assert forall|i: int| 7 <= i < t.len() implies crate::text::is_hex_digit(#[trigger] t[i]) by {
            assert(t[i] == digits[i - 7]);
        }
    }
    if is_sha256_hash(s) {
        assert(s =~= prefix + s.skip(7));
    }
}

/// 64 hex digits of either case.
pub open spec fn is_64_hex_digits(d: Seq<char>) -> bool {
    d.len() == 64 && forall|i: int| 0 <= i < d.len() ==> hex_char_in_either_case(#[trigger] d[i])
}

/// A checksum value is accepted exactly when it is 64 hex digits, either bare
/// or after `sha256:`.
pub proof fn law_checksum_value_is_64_hex_digits(s: Seq<char>)
    ensures
        is_checksum_value(s) <==> (is_64_hex_digits(s) || (s.len() >= 7 && s.take(7) == seq![
            's',
            'h',
            'a',
            '2',
            '5',
            '6',
            ':',
        ] && is_64_hex_digits(s.skip(7)))),
{
    law_sha256_hash_is_prefix_and_64_hex_digits(s, s);
    if s.len() >= 7 {
        law_sha256_hash_is_prefix_and_64_hex_digits(s, s.skip(7));
        let prefix = seq!['s', 'h', 'a', '2', '5', '6', ':'];
        if s.take(7) == prefix {
            assert(s =~= prefix + s.skip(7));
        }
    }
}

/// ASCII upper-casing of one character; other characters are unchanged.
pub open spec fn to_upper(c: char) -> char {
    if 'a' <= c && c <= 'z' {
        ((c as int) - 32) as char
    } else {
        c
    }
}

/// Whether a key looks like a secret does not depend on the case of its ASCII
/// letters: upper-casing every letter of a key does not change the answer, and
/// lower-casing turns each capital into the small letter 32 code points above.
pub proof fn law_secret_detection_ignores_ascii_case(key: Seq<char>)
    ensures
        is_secret_like(key.map_values(|c: char| to_upper(c))) == is_secret_like(key),
        forall|c: char| 'A' <= c && c <= 'Z' ==> (#[trigger] ascii_lower(c)) as int == c as int + 32,
{
    let up = key.map_values(|c: char| to_upper(c));
    assert forall|i: int| 0 <= i < key.len() implies #[trigger] ascii_lower(up[i]) == ascii_lower(key[i]) by {
        let c = key[i];
        if 'a' <= c && c <= 'z' {
            assert(((c as int) - 32) as char as int == (c as int) - 32);
        }
    }
    assert(ascii_lowercase(up) =~= ascii_lowercase(key));
}

/// A key holding `secret`, `token`, `password`, `credential` or `api_key`
/// in lower case anywhere is secret-like, whatever surrounds it.
pub proof fn law_marker_makes_key_secret_like(pre: Seq<char>, post: Seq<char>)
    ensures
        is_secret_like(pre + seq!['s', 'e', 'c', 'r', 'e', 't'] + post),
        is_secret_like(pre + seq!['t', 'o', 'k', 'e', 'n'] + post),
        is_secret_like(pre + seq!['p', 'a', 's', 's', 'w', 'o', 'r', 'd'] + post),
        is_secret_like(pre + seq!['c', 'r', 'e', 'd', 'e', 'n', 't', 'i', 'a', 'l'] + post),
        is_secret_like(pre + seq!['a', 'p', 'i', '_', 'k', 'e', 'y'] + post),
{
    lemma_marker_occurs(pre, seq!['s', 'e', 'c', 'r', 'e', 't'], post);
    lemma_marker_occurs(pre, seq!['t', 'o', 'k', 'e', 'n'], post);
    lemma_marker_occurs(pre, seq!['p', 'a', 's', 's', 'w', 'o', 'r', 'd'], post);
    lemma_marker_occurs(pre, seq!['c', 'r', 'e', 'd', 'e', 'n', 't', 'i', 'a', 'l'], post);
    lemma_marker_occurs(pre, seq!['a', 'p', 'i', '_', 'k', 'e', 'y'], post);
}

proof fn lemma_marker_occurs(pre: Seq<char>, marker: Seq<char>, post: Seq<char>)
    requires
        forall|i: int| 0 <= i < marker.len() ==> 'a' <= #[trigger] marker[i] <= 'z' || marker[i] == '_',
    ensures
        occurs_at(ascii_lowercase(pre + marker + post), marker, pre.len() as int),
{
    let k = ascii_lowercase(pre + marker + post);
    assert(k.subrange(pre.len() as int, (pre.len() + marker.len()) as int) =~= marker) by {
        assert forall|i: int| 0 <= i < marker.len() implies k[pre.len() + i] == marker[i] by {
            assert((pre + marker + post)[pre.len() + i] == marker[i]);
        }
    }
}

/// Items joined by commas hold each item whole.
pub proof fn lemma_join_holds_each(items: Seq<Seq<char>>, i: int) -> (parts: (Seq<char>, Seq<char>))
    requires
        0 <= i < items.len(),
    ensures
        join_commas(items) == parts.0 + items[i] + parts.1,
    decreases items.len(),
{
    if items.len() == 1 {
        assert(join_commas(items) =~= Seq::<char>::empty() + items[i] + Seq::<char>::empty());
        (Seq::<char>::empty(), Seq::<char>::empty())
    } else if i == items.len() - 1 {
        let pre = join_commas(items.drop_last()) + ","@;
        assert(join_commas(items) =~= pre + items[i] + Seq::<char>::empty());
        (pre, Seq::<char>::empty())
    } else {
        let (pre, post) = lemma_join_holds_each(items.drop_last(), i);
        let post2 = post + ","@ + items.last();
        assert(join_commas(items) =~= pre + items[i] + post2);
        (pre, post2)
    }
}

/// The canonical JSON object of metadata holds every entry, key and value:
/// for each entry there is a split of the text around `"key":"value"`.
pub proof fn law_metadata_json_holds_every_entry(e: Seq<(Seq<char>, Seq<char>)>, i: int)
    requires
        0 <= i < e.len(),
    ensures
        exists|pre: Seq<char>, post: Seq<char>|
            string_map_json(e) == #[trigger] (pre + (json_string(e[i].0) + ":"@ + json_string(e[i].1))
                + post),
{
    let items = e.map_values(|p: (Seq<char>, Seq<char>)| json_string(p.0) + ":"@ + json_string(p.1));
    let (pre, post) = lemma_join_holds_each(items, i);
    let pre2 = "{"@ + pre;
    let post2 = post + "}"@;
    assert(string_map_json(e) =~= pre2 + (json_string(e[i].0) + ":"@ + json_string(e[i].1)) + post2);
}

/// The JSON list of checksums holds every checksum.
pub proof fn law_checksums_json_holds_every_checksum(cs: Seq<crate::artifact::Checksum>, i: int)
    requires
        0 <= i < cs.len(),
    ensures
        exists|pre: Seq<char>, post: Seq<char>| checksums_json(cs) == #[trigger] (pre + checksum_json(cs[i]) + post),
{
    let items = cs.map_values(|c: crate::artifact::Checksum| checksum_json(c));
    let (pre, post) = lemma_join_holds_each(items, i);
    assert(checksums_json(cs) =~= ("["@ + pre) + checksum_json(cs[i]) + (post + "]"@));
}

/// The JSON list of distribution channels holds every channel.
pub proof fn law_channels_json_holds_every_channel(v: Seq<String>, i: int)
    requires
        0 <= i < v.len(),
    ensures
        exists|pre: Seq<char>, post: Seq<char>| strings_json(v) == #[trigger] (pre + json_string(v[i]@) + post),
{
    let items = v.map_values(|s: String| json_string(s@));
    let (pre, post) = lemma_join_holds_each(items, i);
    assert(strings_json(v) =~= ("["@ + pre) + json_string(v[i]@) + (post + "]"@));
}

proof fn lemma_differ_in_middle(pre: Seq<char>, x: Seq<char>, y: Seq<char>, post: Seq<char>, k: int)
    requires
        0 <= k < x.len(),
        k < y.len(),
        x[k] != y[k],
    ensures
        pre + x + post != pre + y + post,
{
    assert((pre + x + post)[pre.len() + k] == x[k]);
    assert((pre + y + post)[pre.len() + k] == y[k]);
}

/// The canonical JSON of a manifest before its artifact.
spec fn json_before_artifact(m: ArtifactManifest) -> Seq<char> {
    "{\"manifest_id\":"@ + json_string(m.manifest_id@) + ",\"artifact\":"@
}

/// The canonical JSON of a manifest after its package type.
spec fn json_after_package_type(m: ArtifactManifest) -> Seq<char> {
    ",\"checksums\":"@ + checksums_json(m.checksums@) + ",\"provenance_id\":"@ + json_string(
        m.provenance_id@,
    ) + ",\"retention\":"@ + retention_json(m.retention) + ",\"distribution\":"@
        + distribution_json(m.distribution) + ",\"metadata\":{\"values\":"@ + string_map_json(
        m.metadata@,
    ) + "}}"@
}

/// The canonical JSON of an artifact reference before its type.
spec fn ref_before_type(a: ArtifactRef) -> Seq<char> {
    "{\"artifact_id\":"@ + json_string(a.artifact_id@) + ",\"artifact_type\":"@
}

/// The canonical JSON of an artifact reference between its type and state.
spec fn ref_between_type_and_state(a: ArtifactRef) -> Seq<char> {
    ",\"producer\":"@ + json_string(a.producer@) + ",\"version\":"@ + json_string(a.version@)
        + ",\"hash\":"@ + json_string(a.hash@) + ",\"manifest_ref\":"@ + json_string(
        a.manifest_ref@,
    ) + ",\"state\":"@
}

/// The canonical JSON of an artifact reference after its state.
spec fn ref_after_state(a: ArtifactRef) -> Seq<char> {
    ",\"created_at\":"@ + json_string(a.created_at@) + "}"@
}

#[verifier::rlimit(50)]
proof fn lemma_manifest_json_parts(m: ArtifactManifest)
    ensures
        manifest_json(m) == json_before_artifact(m) + artifact_ref_json(m.artifact)
            + ",\"package_type\":"@ + package_type_json(m.package_type) + json_after_package_type(m),
{
    let x = artifact_ref_json(m.artifact);
    let y = package_type_json(m.package_type);
    assert(manifest_json(m) =~= json_before_artifact(m) + x + ",\"package_type\":"@ + y
        + json_after_package_type(m));
}

#[verifier::rlimit(50)]
proof fn lemma_ref_json_parts(a: ArtifactRef)
    ensures
        artifact_ref_json(a) == ref_before_type(a) + artifact_type_json(a.artifact_type)
            + ref_between_type_and_state(a) + artifact_state_json(a.state) + ref_after_state(a),
{
    let t = artifact_type_json(a.artifact_type);
    let st = artifact_state_json(a.state);
    assert(artifact_ref_json(a) =~= ref_before_type(a) + t + ref_between_type_and_state(a) + st
        + ref_after_state(a));
}

proof fn lemma_regroup(
    a: Seq<char>,
    b: Seq<char>,
    t: Seq<char>,
    mm: Seq<char>,
    st: Seq<char>,
    c: Seq<char>,
    pt: Seq<char>,
    p: Seq<char>,
    j: Seq<char>,
)
    ensures
        a + (b + t + mm + st + c) + pt + p + j == (a + b + t + mm) + st + (c + pt + p + j),
        a + (b + t + mm + st + c) + pt + p + j == (a + b) + t + (mm + st + c + pt + p + j),
{
    assert(a + (b + t + mm + st + c) + pt + p + j =~= (a + b + t + mm) + st + (c + pt + p + j));
    assert(a + (b + t + mm + st + c) + pt + p + j =~= (a + b) + t + (mm + st + c + pt + p + j));
}

/// The canonical JSON text of a manifest tells its artifact's state: two
/// manifests that differ only in that state have different canonical JSON
/// (so revoking, superseding or deleting an artifact changes what is hashed).
pub proof fn law_state_shows_in_canonical_json(m: ArtifactManifest, state: ArtifactState)
    requires
        state != m.artifact.state,
    ensures
        manifest_json(m) != manifest_json(
            ArtifactManifest { artifact: ArtifactRef { state, ..m.artifact }, ..m },
        ),
{
    let m2 = ArtifactManifest { artifact: ArtifactRef { state, ..m.artifact }, ..m };
    lemma_manifest_json_parts(m);
    lemma_manifest_json_parts(m2);
    lemma_ref_json_parts(m.artifact);
    lemma_ref_json_parts(m2.artifact);
    let a = json_before_artifact(m);
    let b = ref_before_type(m.artifact);
    let t = artifact_type_json(m.artifact.artifact_type);
    let mm = ref_between_type_and_state(m.artifact);
    let c = ref_after_state(m.artifact);
    let pt = ",\"package_type\":"@;
    let p = package_type_json(m.package_type);
    let j = json_after_package_type(m);
    let s1 = artifact_state_json(m.artifact.state);
    let s2 = artifact_state_json(state);
    lemma_regroup(a, b, t, mm, s1, c, pt, p, j);
    lemma_regroup(a, b, t, mm, s2, c, pt, p, j);
    reveal_strlit("\"active\"");
    reveal_strlit("\"revoked\"");
    reveal_strlit("\"superseded\"");
    reveal_strlit("\"deleted\"");
    lemma_differ_in_middle(a + b + t + mm, s1, s2, c + pt + p + j, 1);
}

/// Two manifests that differ only in the artifact's type have different
/// canonical JSON.
pub proof fn law_artifact_type_shows_in_canonical_json(m: ArtifactManifest, t: ArtifactType)
    requires
        t != m.artifact.artifact_type,
    ensures
        manifest_json(m) != manifest_json(
            ArtifactManifest { artifact: ArtifactRef { artifact_type: t, ..m.artifact }, ..m },
        ),
{
    let m2 = ArtifactManifest { artifact: ArtifactRef { artifact_type: t, ..m.artifact }, ..m };
    lemma_manifest_json_parts(m);
    lemma_manifest_json_parts(m2);
    lemma_ref_json_parts(m.artifact);
    lemma_ref_json_parts(m2.artifact);
    let a = json_before_artifact(m);
    let b = ref_before_type(m.artifact);
    let mm = ref_between_type_and_state(m.artifact);
    let st = artifact_state_json(m.artifact.state);
    let c = ref_after_state(m.artifact);
    let pt = ",\"package_type\":"@;
    let p = package_type_json(m.package_type);
    let j = json_after_package_type(m);
    let t1 = artifact_type_json(m.artifact.artifact_type);
    let t2 = artifact_type_json(t);
    lemma_regroup(a, b, t1, mm, st, c, pt, p, j);
    lemma_regroup(a, b, t2, mm, st, c, pt, p, j);
    reveal_strlit("\"spec_package\"");
    reveal_strlit("\"handoff_payload\"");
    reveal_strlit("\"curated_export\"");
    reveal_strlit("\"learning_export\"");
    reveal_strlit("\"release_asset\"");
    reveal_strlit("\"inspection_report\"");
    lemma_differ_in_middle(a + b, t1, t2, mm + st + c + pt + p + j, 1);
}

/// Two manifests that differ only in the package type have different
/// canonical JSON.
pub proof fn law_package_type_shows_in_canonical_json(m: ArtifactManifest, p: PackageType)
    requires
        p != m.package_type,
    ensures
        manifest_json(m) != manifest_json(ArtifactManifest { package_type: p, ..m }),
{
    let m2 = ArtifactManifest { package_type: p, ..m };
    lemma_manifest_json_parts(m);
    lemma_manifest_json_parts(m2);
    let pre = json_before_artifact(m) + artifact_ref_json(m.artifact) + ",\"package_type\":"@;
    let post = json_after_package_type(m);
    let p1 = package_type_json(m.package_type);
    let p2 = package_type_json(p);
    reveal_strlit("\"json_bundle\"");
    reveal_strlit("\"tar\"");
    reveal_strlit("\"zip\"");
    reveal_strlit("\"binary\"");
    reveal_strlit("\"container\"");
    reveal_strlit("\"registry_package\"");
    lemma_differ_in_middle(pre, p1, p2, post, 1);
}

} // verus!
