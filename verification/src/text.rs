//! Character-level rules shared by the validators: blank text, hex digits,
//! `sha256:` hash strings, secret-like metadata keys and lower-case hex.

use vstd::prelude::*;

verus! {

/// The characters of `s`, in order.
pub fn chars_of(s: &str) -> (out: Vec<char>)
    ensures
        out@ == s@,
{
    let mut out: Vec<char> = Vec::new();
    for c in it: s.chars()
        invariant
            out@ == it.seq().take(it.index() as int),
            it.seq() == s@,
    {
        out.push(c);
    }
    out
}

/// Unicode `White_Space`: the characters that `char::is_whitespace` accepts
/// and that `str::trim` removes.
pub open spec fn is_whitespace(c: char) -> bool {
    ||| ('\u{9}' <= c && c <= '\u{D}')
    ||| c == ' '
    ||| c == '\u{85}'
    ||| c == '\u{A0}'
    ||| c == '\u{1680}'
    ||| ('\u{2000}' <= c && c <= '\u{200A}')
    ||| c == '\u{2028}'
    ||| c == '\u{2029}'
    ||| c == '\u{202F}'
    ||| c == '\u{205F}'
    ||| c == '\u{3000}'
}

/// Text that is empty once surrounding whitespace is trimmed.
pub open spec fn is_blank(s: Seq<char>) -> bool {
    forall|i: int| 0 <= i < s.len() ==> is_whitespace(#[trigger] s[i])
}

/// Whether `c` is Unicode whitespace.
pub fn whitespace(c: char) -> (b: bool)
    ensures
        b == is_whitespace(c),
{
    ('\u{9}' <= c && c <= '\u{D}') || c == ' ' || c == '\u{85}' || c == '\u{A0}' || c == '\u{1680}'
        || ('\u{2000}' <= c && c <= '\u{200A}') || c == '\u{2028}' || c == '\u{2029}' || c
        == '\u{202F}' || c == '\u{205F}' || c == '\u{3000}'
}

/// Whether `s` trims to the empty string.
pub fn blank(s: &str) -> (b: bool)
    ensures
        b == is_blank(s@),
{
    let cs = chars_of(s);
    let n = cs.len();
    let mut i: usize = 0;
    while i < n
        invariant
            n == cs@.len(),
            cs@ == s@,
            i <= n,
            forall|j: int| 0 <= j < i ==> is_whitespace(#[trigger] cs@[j]),
        decreases n - i,
    {
        if !whitespace(cs[i]) {
            return false;
        }
        i = i + 1;
    }
    true
}

/// An ASCII hexadecimal digit, either case.
pub open spec fn is_hex_digit(c: char) -> bool {
    ||| ('0' <= c && c <= '9')
    ||| ('a' <= c && c <= 'f')
    ||| ('A' <= c && c <= 'F')
}

/// Every character of `s` from `from` on is a hex digit.
pub open spec fn all_hex_from(s: Seq<char>, from: int) -> bool {
    forall|i: int| from <= i < s.len() ==> is_hex_digit(#[trigger] s[i])
}

/// The prefix that marks a SHA-256 hash string.
pub open spec fn sha256_prefix() -> Seq<char> {
    seq!['s', 'h', 'a', '2', '5', '6', ':']
}

/// `sha256:` followed by exactly 64 hex digits.
pub open spec fn is_sha256_hash(s: Seq<char>) -> bool {
    &&& s.len() == 71
    &&& s.subrange(0, 7) == sha256_prefix()
    &&& all_hex_from(s, 7)
}

/// Exactly 64 hex digits, with no prefix.
pub open spec fn is_bare_sha256_hex(s: Seq<char>) -> bool {
    &&& s.len() == 64
    &&& all_hex_from(s, 0)
}

fn hex_digit(c: char) -> (b: bool)
    ensures
        b == is_hex_digit(c),
{
    ('0' <= c && c <= '9') || ('a' <= c && c <= 'f') || ('A' <= c && c <= 'F')
}

fn all_hex(cs: &Vec<char>, from: usize) -> (b: bool)
    ensures
        b == all_hex_from(cs@, from as int),
{
    let n = cs.len();
    let mut i = from;
    while i < n
        invariant
            n == cs@.len(),
            from <= i || n <= i,
            forall|j: int| from <= j < i && j < n ==> is_hex_digit(#[trigger] cs@[j]),
        decreases n - i,
    {
        if !hex_digit(cs[i]) {
            return false;
        }
        i = i + 1;
    }
    true
}

/// Whether `s` is `sha256:` followed by 64 hex digits.
pub fn is_valid_sha256(s: &str) -> (b: bool)
    ensures
        b == is_sha256_hash(s@),
{
    let cs = chars_of(s);
    if cs.len() != 71 {
        return false;
    }
    let ok_prefix = cs[0] == 's' && cs[1] == 'h' && cs[2] == 'a' && cs[3] == '2' && cs[4] == '5'
        && cs[5] == '6' && cs[6] == ':';
    assert(ok_prefix <==> cs@.subrange(0, 7) =~= sha256_prefix());
    ok_prefix && all_hex(&cs, 7)
}

/// Whether `s` is exactly 64 hex digits.
pub fn bare_sha256_hex(s: &str) -> (b: bool)
    ensures
        b == is_bare_sha256_hex(s@),
{
    let cs = chars_of(s);
    cs.len() == 64 && all_hex(&cs, 0)
}

/// ASCII lower-casing of one character; other characters are unchanged.
pub open spec fn ascii_lower(c: char) -> char {
    if 'A' <= c && c <= 'Z' {
        ((c as int) + 32) as char
    } else {
        c
    }
}

/// `s` with its ASCII letters lower-cased, as `str::to_ascii_lowercase` gives it.
pub open spec fn ascii_lowercase(s: Seq<char>) -> Seq<char> {
    s.map_values(|c: char| ascii_lower(c))
}

/// `p` occurs in `s` starting at index `i`.
pub open spec fn occurs_at(s: Seq<char>, p: Seq<char>, i: int) -> bool {
    0 <= i && i + p.len() <= s.len() && s.subrange(i, i + p.len()) == p
}

/// `p` occurs somewhere in `s`.
pub open spec fn occurs_in(s: Seq<char>, p: Seq<char>) -> bool {
    exists|i: int| occurs_at(s, p, i)
}

pub open spec fn marker_secret() -> Seq<char> {
    seq!['s', 'e', 'c', 'r', 'e', 't']
}

pub open spec fn marker_token() -> Seq<char> {
    seq!['t', 'o', 'k', 'e', 'n']
}

pub open spec fn marker_password() -> Seq<char> {
    seq!['p', 'a', 's', 's', 'w', 'o', 'r', 'd']
}

pub open spec fn marker_credential() -> Seq<char> {
    seq!['c', 'r', 'e', 'd', 'e', 'n', 't', 'i', 'a', 'l']
}

pub open spec fn marker_api_key() -> Seq<char> {
    seq!['a', 'p', 'i', '_', 'k', 'e', 'y']
}

/// A metadata key that may name a secret: once ASCII-lower-cased it contains
/// `secret`, `token`, `password`, `credential` or `api_key`.
pub open spec fn is_secret_like(key: Seq<char>) -> bool {
    let k = ascii_lowercase(key);
    ||| occurs_in(k, marker_secret())
    ||| occurs_in(k, marker_token())
    ||| occurs_in(k, marker_password())
    ||| occurs_in(k, marker_credential())
    ||| occurs_in(k, marker_api_key())
}

fn lower(c: char) -> (r: char)
    ensures
        r == ascii_lower(c),
{
    if 'A' <= c && c <= 'Z' {
        ((c as u8) + 32) as char
    } else {
        c
    }
}

/// Whether `p` occurs in the ASCII-lower-cased `hay`.
fn occurs_lowered(hay: &Vec<char>, p: &Vec<char>) -> (b: bool)
    requires
        p@.len() > 0,
    ensures
        b == occurs_in(ascii_lowercase(hay@), p@),
{
    let ghost low = ascii_lowercase(hay@);
    let n = hay.len();
    let m = p.len();
    if m > n {
        assert forall|i: int| !occurs_at(low, p@, i) by {}
        return false;
    }
    let mut i: usize = 0;
    while i <= n - m
        invariant
            n == hay@.len(),
            m == p@.len(),
            0 < m <= n,
            i <= n - m + 1,
            low == ascii_lowercase(hay@),
            forall|k: int| 0 <= k < i ==> !#[trigger] occurs_at(low, p@, k),
        decreases n - m + 1 - i,
    {
        let mut j: usize = 0;
        let mut matched = true;
        while j < m
            invariant
                n == hay@.len(),
                m == p@.len(),
                m <= n,
                i <= n - m,
                j <= m,
                low == ascii_lowercase(hay@),
                matched ==> forall|k: int| 0 <= k < j ==> low[i + k] == p@[k],
                !matched ==> !occurs_at(low, p@, i as int),
            decreases m - j,
        {
            if matched && lower(hay[i + j]) != p[j] {
                matched = false;
                assert(low.subrange(i as int, i + m)[j as int] != p@[j as int]);
            }
            j = j + 1;
        }
        if matched {
            assert(low.subrange(i as int, i + m) =~= p@);
            assert(occurs_at(low, p@, i as int));
            return true;
        }
        i = i + 1;
    }
    assert forall|k: int| !occurs_at(low, p@, k) by {
        if 0 <= k && k + m <= n {
            assert(k < i);
        }
    }
    false
}

/// Whether `key` looks like the name of a secret.
pub fn is_secret_like_key(key: &str) -> (b: bool)
    ensures
        b == is_secret_like(key@),
{
    let cs = chars_of(key);
    let secret = vec!['s', 'e', 'c', 'r', 'e', 't'];
    let token = vec!['t', 'o', 'k', 'e', 'n'];
    let password = vec!['p', 'a', 's', 's', 'w', 'o', 'r', 'd'];
    let credential = vec!['c', 'r', 'e', 'd', 'e', 'n', 't', 'i', 'a', 'l'];
    let api_key = vec!['a', 'p', 'i', '_', 'k', 'e', 'y'];
    assert(secret@ =~= marker_secret());
    assert(token@ =~= marker_token());
    assert(password@ =~= marker_password());
    assert(credential@ =~= marker_credential());
    assert(api_key@ =~= marker_api_key());
    occurs_lowered(&cs, &secret) || occurs_lowered(&cs, &token) || occurs_lowered(&cs, &password)
        || occurs_lowered(&cs, &credential) || occurs_lowered(&cs, &api_key)
}

/// Lexicographic order on texts by code point. It is the order of `str`
/// and `String`, whose byte order under UTF-8 agrees with code-point order.
pub open spec fn text_lt(a: Seq<char>, b: Seq<char>) -> bool
    decreases a.len(),
{
    if a.len() == 0 {
        b.len() > 0
    } else if b.len() == 0 {
        false
    } else if a[0] != b[0] {
        a[0] < b[0]
    } else {
        text_lt(a.drop_first(), b.drop_first())
    }
}

/// No text is below itself.
pub proof fn lemma_text_lt_irreflexive(a: Seq<char>)
    ensures
        !text_lt(a, a),
    decreases a.len(),
{
    if a.len() > 0 {
        lemma_text_lt_irreflexive(a.drop_first());
    }
}

/// Of two different texts, exactly one is below the other.
pub proof fn lemma_text_lt_total(a: Seq<char>, b: Seq<char>)
    ensures
        a != b ==> (text_lt(a, b) || text_lt(b, a)),
        !(text_lt(a, b) && text_lt(b, a)),
    decreases a.len(),
{
    if a.len() > 0 && b.len() > 0 && a[0] == b[0] {
        lemma_text_lt_total(a.drop_first(), b.drop_first());
        if a != b {
            assert(a.drop_first() != b.drop_first()) by {
                if a.drop_first() == b.drop_first() {
                    assert(a =~= seq![a[0]] + a.drop_first());
                    assert(b =~= seq![b[0]] + b.drop_first());
                }
            }
        }
    } else if a.len() == 0 && b.len() == 0 {
        assert(a =~= b);
    }
}

/// The order is transitive.
pub proof fn lemma_text_lt_transitive(a: Seq<char>, b: Seq<char>, c: Seq<char>)
    requires
        text_lt(a, b),
        text_lt(b, c),
    ensures
        text_lt(a, c),
    decreases a.len(),
{
    if a.len() > 0 && b.len() > 0 && c.len() > 0 && a[0] == b[0] && b[0] == c[0] {
        lemma_text_lt_transitive(a.drop_first(), b.drop_first(), c.drop_first());
    }
}

/// Whether `a` is below `b` in the order of texts.
pub fn text_less(a: &Vec<char>, b: &Vec<char>) -> (r: bool)
    ensures
        r == text_lt(a@, b@),
{
    let n = a.len();
    let m = b.len();
    let mut i: usize = 0;
    assert(a@.skip(0) =~= a@ && b@.skip(0) =~= b@);
    loop
        invariant
            n == a@.len(),
            m == b@.len(),
            i <= n,
            i <= m,
            text_lt(a@, b@) == text_lt(a@.skip(i as int), b@.skip(i as int)),
        decreases n - i,
    {
        if i == n {
            return i < m;
        }
        if i == m {
            return false;
        }
        let x = a[i];
        let y = b[i];
        assert(a@.skip(i as int)[0] == x && b@.skip(i as int)[0] == y);
        if x != y {
            return x < y;
        }
        assert(a@.skip(i as int).drop_first() =~= a@.skip(i + 1));
        assert(b@.skip(i as int).drop_first() =~= b@.skip(i + 1));
        i = i + 1;
    }
}

} // verus!
