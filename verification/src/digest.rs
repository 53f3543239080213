//! SHA-256 fingerprints of canonical JSON, written as `sha256:` and lower-case hex.

use sha2::Digest;
use vstd::prelude::*;

use crate::text::{all_hex_from, is_hex_digit, is_sha256_hash, sha256_prefix};

verus! {

/// The lower-case hex digit for a value below 16.
pub open spec fn hex_char(n: int) -> char {
    if n < 10 {
        (48 + n) as char
    } else {
        (87 + n) as char
    }
}

/// Two lower-case hex digits per byte, high nibble first.
pub open spec fn lower_hex(b: Seq<u8>) -> Seq<char>
    decreases b.len(),
{
    if b.len() == 0 {
        seq![]
    } else {
        lower_hex(b.drop_last()) + seq![hex_char(b.last() as int / 16), hex_char(b.last() as int % 16)]
    }
}

/// The SHA-256 digest of `data`, as `sha2::Sha256` computes it.
pub uninterp spec fn sha256_of(data: Seq<u8>) -> Seq<u8>;

/// The stable hash text of a canonical JSON encoding: `sha256:` and the
/// lower-case hex of its SHA-256 digest.
pub open spec fn stable_hash_text(json: Seq<u8>) -> Seq<char> {
    sha256_prefix() + lower_hex(sha256_of(json))
}

/// Calls `sha2::Sha256::digest`. Trusted: the result is `sha256_of` of the
/// input bytes, and it is 32 bytes long (the output size of `Sha256`).
#[verifier::external_body]
fn sha256_digest(data: &[u8]) -> (d: Vec<u8>)
    ensures
        d@ == sha256_of(data@),
        d@.len() == 32,
{
    sha2::Sha256::digest(data).to_vec()
}

/// Calls `String::push`: appends one character.
#[verifier::external_body]
fn push_char(s: &mut String, c: char)
    ensures
        final(s)@ == old(s)@.push(c),
{
    s.push(c)
}

fn nibble_char(n: u8) -> (c: char)
    requires
        n < 16,
    ensures
        c == hex_char(n as int),
{
    if n < 10 {
        (48u8 + n) as char
    } else {
        (87u8 + n) as char
    }
}

/// Appends the lower-case hex of `bytes` to `out`.
fn push_lower_hex(out: &mut String, bytes: &[u8])
    ensures
        final(out)@ == old(out)@ + lower_hex(bytes@),
{
    let ghost start = out@;
    let n = bytes.len();
    let mut i: usize = 0;
    assert(bytes@.take(0) =~= Seq::<u8>::empty());
    while i < n
        invariant
            n == bytes@.len(),
            i <= n,
            out@ == start + lower_hex(bytes@.take(i as int)),
        decreases n - i,
    {
        let b = bytes[i];
        assert(b >> 4u8 == b / 16 && b & 0x0fu8 == b % 16 && b >> 4u8 < 16 && b & 0x0fu8 < 16)
            by (bit_vector);
        let hi = b >> 4u8;
        let lo = b & 0x0fu8;
        push_char(out, nibble_char(hi));
        push_char(out, nibble_char(lo));
        assert(bytes@.take(i + 1).drop_last() =~= bytes@.take(i as int));
        assert(out@ =~= start + lower_hex(bytes@.take(i + 1)));
        i = i + 1;
    }
    assert(bytes@.take(n as int) =~= bytes@);
}

/// The lower-case hex encoding of `bytes`.
pub fn to_lower_hex(bytes: &[u8]) -> (out: String)
    ensures
        out@ == lower_hex(bytes@),
{
    let mut out = String::new();
    push_lower_hex(&mut out, bytes);
    assert(out@ =~= lower_hex(bytes@));
    out
}

/// Lower-case hex has two characters per byte, each a hex digit.
pub proof fn lemma_lower_hex_shape(b: Seq<u8>)
    ensures
        lower_hex(b).len() == 2 * b.len(),
        all_hex_from(lower_hex(b), 0),
    decreases b.len(),
{
    if b.len() > 0 {
        lemma_lower_hex_shape(b.drop_last());
        let prev = lower_hex(b.drop_last());
        let hi = hex_char(b.last() as int / 16);
        let lo = hex_char(b.last() as int % 16);
        assert(is_hex_digit(hi) && is_hex_digit(lo));
        assert forall|i: int| 0 <= i < lower_hex(b).len() implies is_hex_digit(
            #[trigger] lower_hex(b)[i],
        ) by {
            if i < prev.len() {
                assert(lower_hex(b)[i] == prev[i]);
            }
        }
    }
}

/// A 32-byte digest written as `sha256:` and lower-case hex is a well-formed
/// SHA-256 hash string.
pub proof fn lemma_digest_text_is_sha256_hash(d: Seq<u8>)
    requires
        d.len() == 32,
    ensures
        is_sha256_hash(sha256_prefix() + lower_hex(d)),
{
    lemma_lower_hex_shape(d);
    let t = sha256_prefix() + lower_hex(d);
    assert(t.subrange(0, 7) =~= sha256_prefix());
    assert forall|i: int| 7 <= i < t.len() implies is_hex_digit(#[trigger] t[i]) by {
        assert(t[i] == lower_hex(d)[i - 7]);
    }
}

/// The stable hash of a canonical JSON encoding: `sha256:` followed by the
/// lower-case hex of the SHA-256 digest of `canonical_json`. The result is
/// always a well-formed SHA-256 hash string.
pub fn stable_json_hash(canonical_json: &[u8]) -> (h: String)
    ensures
        h@ == stable_hash_text(canonical_json@),
        is_sha256_hash(h@),
{
    let digest = sha256_digest(canonical_json);
    let mut out = String::from_str("sha256:");
    proof {
        reveal_strlit("sha256:");
    }
    assert(out@ =~= sha256_prefix());
    push_lower_hex(&mut out, digest.as_slice());
    proof {
        lemma_digest_text_is_sha256_hash(digest@);
    }
    out
}

} // verus!
