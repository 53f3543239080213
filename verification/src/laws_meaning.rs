//! What the building blocks mean, stated without their definitions: the
//! whitespace that trimming removes, the order of texts, the map that a list
//! of pairs builds, hex digits, secret markers, and which rule a refusal names.

use vstd::prelude::*;

use crate::artifact::{rfc3339_parses, ArtifactManifest, ArtifactRef, TimestampChecks};
use crate::digest::lower_hex;
use crate::error::ValidationFailure;
use crate::metadata::{first_secret_key, pairs_map};
use crate::text::{ascii_lowercase, is_blank, is_secret_like, is_sha256_hash, is_whitespace, occurs_at, text_lt};

verus! {

/// The characters with the Unicode `White_Space` property.
pub open spec fn white_space_table() -> Seq<char> {
    seq![
        '\u{9}', '\u{A}', '\u{B}', '\u{C}', '\u{D}', ' ', '\u{85}', '\u{A0}', '\u{1680}', '\u{2000}',
        '\u{2001}', '\u{2002}', '\u{2003}', '\u{2004}', '\u{2005}', '\u{2006}', '\u{2007}',
        '\u{2008}', '\u{2009}', '\u{200A}', '\u{2028}', '\u{2029}', '\u{202F}', '\u{205F}',
        '\u{3000}',
    ]
}

/// Whitespace is exactly the 25 characters of Unicode `White_Space`.
pub proof fn law_whitespace_is_unicode_white_space(c: char)
    ensures
        is_whitespace(c) <==> white_space_table().contains(c),
{
    let t = white_space_table();
    if is_whitespace(c) {
        if '\u{9}' <= c && c <= '\u{D}' {
            assert(t[(c as int) - 9] == c);
        } else if c == ' ' {
            assert(t[5] == c);
        } else if c == '\u{85}' {
            assert(t[6] == c);
        } else if c == '\u{A0}' {
            assert(t[7] == c);
        } else if c == '\u{1680}' {
            assert(t[8] == c);
        } else if '\u{2000}' <= c && c <= '\u{200A}' {
            assert(t[(c as int) - 0x2000 + 9] == c);
        } else if c == '\u{2028}' {
            assert(t[20] == c);
        } else if c == '\u{2029}' {
            assert(t[21] == c);
        } else if c == '\u{202F}' {
            assert(t[22] == c);
        } else if c == '\u{205F}' {
            assert(t[23] == c);
        } else {
            assert(t[24] == c);
        }
    }
}

/// A text is blank exactly when each of its parts is: blankness looks at
/// every character, and the empty text is blank.
pub proof fn law_blank_splits(a: Seq<char>, b: Seq<char>)
    ensures
        is_blank(a + b) <==> is_blank(a) && is_blank(b),
        is_blank(Seq::<char>::empty()),
        is_blank(seq![' ']) && !is_blank(seq!['x']),
{
    let s = a + b;
    if is_blank(s) {
        assert forall|i: int| 0 <= i < a.len() implies is_whitespace(#[trigger] a[i]) by {
            assert(s[i] == a[i]);
        }
        assert forall|i: int| 0 <= i < b.len() implies is_whitespace(#[trigger] b[i]) by {
            assert(s[a.len() + i] == b[i]);
        }
    }
    if is_blank(a) && is_blank(b) {
        assert forall|i: int| 0 <= i < s.len() implies is_whitespace(#[trigger] s[i]) by {
            if i < a.len() {
                assert(s[i] == a[i]);
            } else {
                assert(s[i] == b[i - a.len()]);
            }
        }
    }
    assert(seq!['x'][0] == 'x');
}

/// The five markers of a secret-like key.
pub open spec fn secret_markers() -> Seq<Seq<char>> {
    seq![
        seq!['s', 'e', 'c', 'r', 'e', 't'],
        seq!['t', 'o', 'k', 'e', 'n'],
        seq!['p', 'a', 's', 's', 'w', 'o', 'r', 'd'],
        seq!['c', 'r', 'e', 'd', 'e', 'n', 't', 'i', 'a', 'l'],
        seq!['a', 'p', 'i', '_', 'k', 'e', 'y'],
    ]
}

/// A key is secret-like exactly when, ASCII-lower-cased, it is some text, one
/// of the five markers, and some text.
pub proof fn law_secret_like_means_a_marker_inside(key: Seq<char>)
    ensures
        is_secret_like(key) <==> exists|j: int, pre: Seq<char>, post: Seq<char>|
            0 <= j < 5 && ascii_lowercase(key) == #[trigger] (pre + secret_markers()[j] + post),
{
    let low = ascii_lowercase(key);
    let ms = secret_markers();
    if is_secret_like(key) {
        let j: int = if crate::text::occurs_in(low, ms[0]) {
            0
        } else if crate::text::occurs_in(low, ms[1]) {
            1
        } else if crate::text::occurs_in(low, ms[2]) {
            2
        } else if crate::text::occurs_in(low, ms[3]) {
            3
        } else {
            4
        };
        assert(crate::text::occurs_in(low, ms[j]));
        let i = choose|i: int| occurs_at(low, ms[j], i);
        let pre = low.take(i);
        let post = low.skip(i + ms[j].len());
        assert(low =~= pre + ms[j] + post);
    }
    if exists|j: int, pre: Seq<char>, post: Seq<char>|
        0 <= j < 5 && low == #[trigger] (pre + ms[j] + post) {
        let (j, pre, post) = choose|j: int, pre: Seq<char>, post: Seq<char>|
            0 <= j < 5 && low == #[trigger] (pre + ms[j] + post);
        assert(low.subrange(pre.len() as int, (pre.len() + ms[j].len()) as int) =~= ms[j]);
        assert(occurs_at(low, ms[j], pre.len() as int));
    }
}

/// The order of texts: the first differing character decides, and a proper
/// prefix comes before the longer text.
pub proof fn law_text_order(p: Seq<char>, x: char, y: char, r1: Seq<char>, r2: Seq<char>)
    ensures
        x < y ==> text_lt(p + seq![x] + r1, p + seq![y] + r2),
        r1.len() > 0 ==> text_lt(p, p + r1),
        !text_lt(p + r1, p),
    decreases p.len(),
{
    if p.len() > 0 {
        law_text_order(p.drop_first(), x, y, r1, r2);
        assert((p + seq![x] + r1).drop_first() =~= p.drop_first() + seq![x] + r1);
        assert((p + seq![y] + r2).drop_first() =~= p.drop_first() + seq![y] + r2);
        assert((p + r1).drop_first() =~= p.drop_first() + r1);
    } else {
        assert(p + seq![x] + r1 =~= seq![x] + r1);
        assert(p + seq![y] + r2 =~= seq![y] + r2);
        assert(p + r1 =~= r1);
    }
}

/// A list of pairs builds the map where each key maps to the value of its
/// last pair: adding a pair sets its key, and a key is present exactly when
/// some pair has it.
pub proof fn law_pairs_build_last_value_map(s: Seq<(Seq<char>, Seq<char>)>, k: Seq<char>, v: Seq<char>)
    ensures
        pairs_map(s.push((k, v))) == pairs_map(s).insert(k, v),
        pairs_map(s).contains_key(k) <==> exists|i: int| 0 <= i < s.len() && #[trigger] s[i].0 == k,
        pairs_map(Seq::<(Seq<char>, Seq<char>)>::empty()) == Map::<Seq<char>, Seq<char>>::empty(),
    decreases s.len(),
{
    assert(s.push((k, v)).drop_last() =~= s);
    if s.len() > 0 {
        law_pairs_build_last_value_map(s.drop_last(), k, v);
        if exists|i: int| 0 <= i < s.drop_last().len() && #[trigger] s.drop_last()[i].0 == k {
            let i = choose|i: int| 0 <= i < s.drop_last().len() && #[trigger] s.drop_last()[i].0 == k;
            assert(s[i] == s.drop_last()[i]);
        }
        if exists|i: int| 0 <= i < s.len() && #[trigger] s[i].0 == k {
            let i = choose|i: int| 0 <= i < s.len() && #[trigger] s[i].0 == k;
            if i < s.len() - 1 {
                assert(s.drop_last()[i] == s[i]);
            }
        }
    }
}

/// The lower-case hex digits, by value.
pub open spec fn lower_hex_table() -> Seq<char> {
    seq!['0', '1', '2', '3', '4', '5', '6', '7', '8', '9', 'a', 'b', 'c', 'd', 'e', 'f']
}

proof fn lemma_hex_char_table(n: int)
    requires
        0 <= n < 16,
    ensures
        crate::digest::hex_char(n) == lower_hex_table()[n],
{
    let t = lower_hex_table();
    if n < 10 {
        assert(t[n] as int == 48 + n);
    } else {
        assert(t[n] as int == 87 + n);
    }
}

/// Lower-case hex writes each byte as two digits, the high half first: byte
/// `i` becomes characters `2i` and `2i + 1`, the digits of its value over 16
/// and its value modulo 16.
pub proof fn law_lower_hex_digits(b: Seq<u8>)
    ensures
        lower_hex(b).len() == 2 * b.len(),
        forall|i: int|
            0 <= i < b.len() ==> lower_hex(b)[2 * i] == lower_hex_table()[b[i] as int / 16]
                && lower_hex(b)[2 * i + 1] == lower_hex_table()[b[i] as int % 16],
    decreases b.len(),
{
    if b.len() > 0 {
        let d = b.drop_last();
        law_lower_hex_digits(d);
        let n = b.len() - 1;
        lemma_hex_char_table(b[n] as int / 16);
        lemma_hex_char_table(b[n] as int % 16);
        assert forall|i: int| 0 <= i < b.len() implies lower_hex(b)[2 * i] == lower_hex_table()[b[i] as int
            / 16] && lower_hex(b)[2 * i + 1] == lower_hex_table()[b[i] as int % 16] by {
            if i < n {
                assert(d[i] == b[i]);
                assert(lower_hex(b)[2 * i] == lower_hex(d)[2 * i]);
                assert(lower_hex(b)[2 * i + 1] == lower_hex(d)[2 * i + 1]);
            }
        }
    }
}

/// What a refused reference reports is a rule it breaks: a blank field that
/// is named, its hash when the hash is not `sha256:` and 64 hex digits, its
/// `created_at` when that is unreadable.
pub proof fn law_reference_refusal_is_true(a: ArtifactRef, created_at_readable: bool)
    ensures
        a.check(created_at_readable) matches Err(ValidationFailure::EmptyField(f)) ==> {
            ||| f == "artifact_id"@ && is_blank(a.artifact_id@)
            ||| f == "producer"@ && is_blank(a.producer@)
            ||| f == "version"@ && is_blank(a.version@)
            ||| f == "manifest_ref"@ && is_blank(a.manifest_ref@)
        },
        a.check(created_at_readable) matches Err(ValidationFailure::MalformedSha256 { field, value }) ==> field
            == "artifact.hash"@ && value == a.hash@ && !is_sha256_hash(a.hash@),
        a.check(created_at_readable) matches Err(ValidationFailure::MalformedTimestamp { field, value }) ==> field
            == "created_at"@ && value == a.created_at@ && !created_at_readable,
        !(a.check(created_at_readable) matches Err(ValidationFailure::MissingSha256Checksum)),
{
}

/// What a refused manifest reports is a rule it breaks, naming the field and
/// carrying that field's own text.
pub proof fn law_manifest_refusal_is_true(m: ArtifactManifest)
    ensures
        m.check(m.readable_timestamps()) matches Err(ValidationFailure::SecretLikeMetadataKey(k))
            ==> is_secret_like(k) && first_secret_key(m.metadata@) == Some(k),
        m.check(m.readable_timestamps()) matches Err(ValidationFailure::ManifestRefMismatch { manifest_id, manifest_ref })
            ==> manifest_id == m.manifest_id@ && manifest_ref == m.artifact.manifest_ref@ && manifest_id
            != manifest_ref,
        m.check(m.readable_timestamps()) matches Err(ValidationFailure::MalformedTimestamp { field, value }) ==> {
            ||| field == "created_at"@ && value == m.artifact.created_at@ && !rfc3339_parses(value)
            ||| field == "retention.expires_at"@ && m.retention.expires_at == Some(
                m.retention.expires_at->0,
            ) && value == m.retention.expires_at->0@ && !rfc3339_parses(value)
            ||| field == "retention.revoked_at"@ && m.retention.revoked_at is Some
                && value == m.retention.revoked_at->0@ && !rfc3339_parses(value)
            ||| field == "retention.delete_after"@ && m.retention.delete_after is Some
                && value == m.retention.delete_after->0@ && !rfc3339_parses(value)
            ||| field == "distribution.published_at"@ && m.distribution.published_at is Some
                && value == m.distribution.published_at->0@ && !rfc3339_parses(value)
        },
        m.check(m.readable_timestamps()) matches Err(ValidationFailure::MissingSha256Checksum) ==> m.checksums@.len()
            == 0,
        m.check(m.readable_timestamps()) matches Err(ValidationFailure::EmptyField(f)) ==> {
            ||| f == "manifest_id"@ && is_blank(m.manifest_id@)
            ||| f == "provenance_id"@ && is_blank(m.provenance_id@)
            ||| f == "artifact_id"@ && is_blank(m.artifact.artifact_id@)
            ||| f == "producer"@ && is_blank(m.artifact.producer@)
            ||| f == "version"@ && is_blank(m.artifact.version@)
            ||| f == "manifest_ref"@ && is_blank(m.artifact.manifest_ref@)
        },
{
    law_reference_refusal_is_true(m.artifact, rfc3339_parses(m.artifact.created_at@));
    crate::laws::law_metadata_refusal_any(m.metadata@);
}

} // verus!
