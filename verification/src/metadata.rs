//! Free-form metadata attached to a manifest: text keys and values, kept in
//! key order, refused when a key looks like the name of a secret, and shown
//! without its values.

use vstd::prelude::*;

use vstd::utf8::encode_utf8;

use crate::canonical::{join_commas, json_string, push_json_string};
use crate::digest::{stable_hash_text, stable_json_hash};
use crate::error::MetadataValidationError;
use crate::text::{
    chars_of, is_secret_like, is_sha256_hash, lemma_text_lt_irreflexive, lemma_text_lt_total,
    lemma_text_lt_transitive, is_secret_like_key, text_less, text_lt,
};

verus! {

/// Key/value pairs of strings, taken by their characters.
pub open spec fn text_pairs(s: Seq<(String, String)>) -> Seq<(Seq<char>, Seq<char>)> {
    s.map_values(|p: (String, String)| (p.0@, p.1@))
}

/// Keys strictly ascend in the order of texts (so none occurs twice).
pub open spec fn keys_ascending(e: Seq<(Seq<char>, Seq<char>)>) -> bool {
    forall|i: int, j: int| 0 <= i < j < e.len() ==> text_lt(#[trigger] e[i].0, #[trigger] e[j].0)
}

/// No key occurs twice.
pub open spec fn keys_distinct(e: Seq<(Seq<char>, Seq<char>)>) -> bool {
    forall|i: int, j: int|
        0 <= i < e.len() && 0 <= j < e.len() && i != j ==> #[trigger] e[i].0 != #[trigger] e[j].0
}

/// The map that inserting the pairs one after another builds: a later pair
/// with the same key replaces an earlier one.
pub open spec fn pairs_map(s: Seq<(Seq<char>, Seq<char>)>) -> Map<Seq<char>, Seq<char>>
    decreases s.len(),
{
    if s.len() == 0 {
        Map::empty()
    } else {
        pairs_map(s.drop_last()).insert(s.last().0, s.last().1)
    }
}

/// The keys of a list of pairs, in order.
pub open spec fn keys_of(e: Seq<(Seq<char>, Seq<char>)>) -> Seq<Seq<char>> {
    e.map_values(|p: (Seq<char>, Seq<char>)| p.0)
}

/// The first key, in list order, that looks like the name of a secret.
pub open spec fn first_secret_key(e: Seq<(Seq<char>, Seq<char>)>) -> Option<Seq<char>>
    decreases e.len(),
{
    if e.len() == 0 {
        None
    } else if is_secret_like(e[0].0) {
        Some(e[0].0)
    } else {
        first_secret_key(e.drop_first())
    }
}

/// The stable hash of metadata with these entries: `sha256:` and the hex of
/// the SHA-256 digest of the UTF-8 bytes of their JSON object.
pub open spec fn metadata_hash(entries: Seq<(Seq<char>, Seq<char>)>) -> Seq<char> {
    stable_hash_text(encode_utf8(string_map_json(entries)))
}

/// How `Debug` shows one text: quoted and escaped, as `<str as Debug>::fmt` writes it.
pub uninterp spec fn debug_text(s: Seq<char>) -> Seq<char>;

/// The value shown in place of every metadata value.
pub open spec fn redacted_value() -> Seq<char> {
    ": \"<redacted>\""@
}

/// The entries of the redacted debug text, one per key, separated by `, `.
pub open spec fn debug_entries(keys: Seq<Seq<char>>) -> Seq<char>
    decreases keys.len(),
{
    if keys.len() == 0 {
        seq![]
    } else if keys.len() == 1 {
        debug_text(keys[0]) + redacted_value()
    } else {
        debug_entries(keys.drop_last()) + ", "@ + debug_text(keys.last()) + redacted_value()
    }
}

/// The debug text of metadata with these keys: every value is replaced by `<redacted>`.
pub open spec fn redacted_debug(keys: Seq<Seq<char>>) -> Seq<char> {
    "SafeMetadata({"@ + debug_entries(keys) + "})"@
}

/// The JSON object of a string map whose entries are listed in key order.
pub open spec fn string_map_json(entries: Seq<(Seq<char>, Seq<char>)>) -> Seq<char> {
    "{"@ + join_commas(
        entries.map_values(|p: (Seq<char>, Seq<char>)| json_string(p.0) + ":"@ + json_string(p.1)),
    ) + "}"@
}

/// Calls `<str as Debug>::fmt` through `format!`: the quoted, escaped text.
#[verifier::external_body]
fn debug_quoted(s: &str) -> (q: String)
    ensures
        q@ == debug_text(s@),
{
    format!("{:?}", s)
}

/// Ascending keys are distinct.
pub proof fn lemma_ascending_distinct(e: Seq<(Seq<char>, Seq<char>)>)
    requires
        keys_ascending(e),
    ensures
        keys_distinct(e),
{
    assert forall|i: int, j: int|
        0 <= i < e.len() && 0 <= j < e.len() && i != j implies #[trigger] e[i].0
        != #[trigger] e[j].0 by {
        lemma_text_lt_irreflexive(e[i].0);
        if i < j {
            assert(text_lt(e[i].0, e[j].0));
        } else {
            assert(text_lt(e[j].0, e[i].0));
        }
    }
}

/// With distinct keys, the map of the pairs holds exactly the listed pairs.
pub proof fn lemma_pairs_map_of_distinct(e: Seq<(Seq<char>, Seq<char>)>)
    requires
        keys_distinct(e),
    ensures
        forall|i: int|
            0 <= i < e.len() ==> #[trigger] pairs_map(e).contains_key(e[i].0) && pairs_map(e)[e[i].0]
                == e[i].1,
        forall|k: Seq<char>|
            #[trigger] pairs_map(e).contains_key(k) ==> exists|i: int| 0 <= i < e.len() && e[i].0 == k,
    decreases e.len(),
{
    if e.len() > 0 {
        let d = e.drop_last();
        assert(keys_distinct(d)) by {
            assert forall|i: int, j: int|
                0 <= i < d.len() && 0 <= j < d.len() && i != j implies #[trigger] d[i].0
                != #[trigger] d[j].0 by {
                assert(d[i] == e[i] && d[j] == e[j]);
            }
        }
        lemma_pairs_map_of_distinct(d);
        assert(pairs_map(e) == pairs_map(d).insert(e.last().0, e.last().1));
        assert forall|i: int| 0 <= i < e.len() implies #[trigger] pairs_map(e).contains_key(e[i].0)
            && pairs_map(e)[e[i].0] == e[i].1 by {
            if i < e.len() - 1 {
                assert(d[i] == e[i]);
                assert(pairs_map(d).contains_key(d[i].0));
                assert(e[i].0 != e[e.len() - 1].0);
            }
        }
        assert forall|k: Seq<char>| #[trigger] pairs_map(e).contains_key(k) implies exists|i: int|
            0 <= i < e.len() && e[i].0 == k by {
            if k != e.last().0 {
                assert(pairs_map(d).contains_key(k));
                let i = choose|i: int| 0 <= i < d.len() && d[i].0 == k;
                assert(e[i] == d[i]);
            } else {
                assert(e[e.len() - 1].0 == k);
            }
        }
    }
}

/// Removing the last of distinct pairs removes its key from the map.
proof fn lemma_pairs_map_drop_last(e: Seq<(Seq<char>, Seq<char>)>)
    requires
        keys_distinct(e),
        e.len() > 0,
    ensures
        pairs_map(e.drop_last()) == pairs_map(e).remove(e.last().0),
{
    let d = e.drop_last();
    assert(keys_distinct(d)) by {
        assert forall|i: int, j: int|
            0 <= i < d.len() && 0 <= j < d.len() && i != j implies #[trigger] d[i].0
            != #[trigger] d[j].0 by {
            assert(d[i] == e[i] && d[j] == e[j]);
        }
    }
    lemma_pairs_map_of_distinct(d);
    assert(!pairs_map(d).contains_key(e.last().0)) by {
        if pairs_map(d).contains_key(e.last().0) {
            let i = choose|i: int| 0 <= i < d.len() && d[i].0 == e.last().0;
            assert(e[i] == d[i]);
            assert(e[i].0 != e[e.len() - 1].0);
        }
    }
    assert(pairs_map(d) =~= pairs_map(e).remove(e.last().0));
}

/// Two lists with ascending keys that build the same map are the same list.
pub proof fn lemma_ascending_determined(e1: Seq<(Seq<char>, Seq<char>)>, e2: Seq<(Seq<char>, Seq<char>)>)
    requires
        keys_ascending(e1),
        keys_ascending(e2),
        pairs_map(e1) == pairs_map(e2),
    ensures
        e1 == e2,
    decreases e1.len(),
{
    lemma_ascending_distinct(e1);
    lemma_ascending_distinct(e2);
    lemma_pairs_map_of_distinct(e1);
    lemma_pairs_map_of_distinct(e2);
    if e1.len() == 0 || e2.len() == 0 {
        if e1.len() > 0 {
            assert(pairs_map(e1).contains_key(e1[0].0));
        }
        if e2.len() > 0 {
            assert(pairs_map(e2).contains_key(e2[0].0));
        }
        assert(e1 =~= e2);
    } else {
        let n1 = e1.len() - 1;
        let n2 = e2.len() - 1;
        let k1 = e1[n1].0;
        let k2 = e2[n2].0;
        assert(pairs_map(e2).contains_key(k1));
        assert(pairs_map(e1).contains_key(k2));
        let i2 = choose|i: int| 0 <= i < e2.len() && e2[i].0 == k1;
        let i1 = choose|i: int| 0 <= i < e1.len() && e1[i].0 == k2;
        if k1 != k2 {
            assert(i2 != n2);
            assert(i1 != n1);
            assert(text_lt(e2[i2].0, e2[n2].0));
            assert(text_lt(e1[i1].0, e1[n1].0));
            lemma_text_lt_total(k1, k2);
        }
        assert(e1.last() == e2.last());
        lemma_pairs_map_drop_last(e1);
        lemma_pairs_map_drop_last(e2);
        let d1 = e1.drop_last();
        let d2 = e2.drop_last();
        assert(keys_ascending(d1)) by {
            assert forall|i: int, j: int| 0 <= i < j < d1.len() implies text_lt(
                #[trigger] d1[i].0,
                #[trigger] d1[j].0,
            ) by {
                assert(d1[i] == e1[i] && d1[j] == e1[j]);
            }
        }
        assert(keys_ascending(d2)) by {
            assert forall|i: int, j: int| 0 <= i < j < d2.len() implies text_lt(
                #[trigger] d2[i].0,
                #[trigger] d2[j].0,
            ) by {
                assert(d2[i] == e2[i] && d2[j] == e2[j]);
            }
        }
        lemma_ascending_determined(d1, d2);
        assert(e1 =~= d1.push(e1.last()));
        assert(e2 =~= d2.push(e2.last()));
    }
}

/// Puts `key` and `value` into entries kept in ascending key order: the value
/// of a present key is replaced, a new key goes where the order puts it.
fn insert_entry(entries: &mut Vec<(String, String)>, key: String, value: String)
    requires
        keys_ascending(text_pairs(old(entries)@)),
    ensures
        keys_ascending(text_pairs(final(entries)@)),
        pairs_map(text_pairs(final(entries)@)) == pairs_map(text_pairs(old(entries)@)).insert(
            key@,
            value@,
        ),
{
    let ghost e = text_pairs(entries@);
    let ghost k = key@;
    let ghost v = value@;
    let kc = chars_of(key.as_str());
    let n = entries.len();
    let mut j: usize = 0;
    while j < n
        invariant
            n == entries@.len(),
            e == text_pairs(entries@),
            kc@ == k,
            j <= n,
            forall|i: int| 0 <= i < j ==> text_lt(#[trigger] e[i].0, k),
        ensures
            j <= n,
            forall|i: int| 0 <= i < j ==> text_lt(#[trigger] e[i].0, k),
            j < n ==> !text_lt(e[j as int].0, k),
        decreases n - j,
    {
        let ec = chars_of(entries[j].0.as_str());
        if !text_less(&ec, &kc) {
            break;
        }
        j = j + 1;
    }
    proof {
        lemma_ascending_distinct(e);
        lemma_pairs_map_of_distinct(e);
    }
    if j < n && entries[j].0 == key {
        entries[j] = (key, value);
        let ghost e2 = text_pairs(entries@);
        assert(forall|i: int| 0 <= i < e.len() ==> #[trigger] e2[i].0 == e[i].0);
        assert(e2[j as int] == (k, v));
        assert(keys_ascending(e2));
        proof {
            lemma_ascending_distinct(e2);
            lemma_pairs_map_of_distinct(e2);
        }
        assert forall|x: Seq<char>| #[trigger] pairs_map(e2).contains_key(x) <==> pairs_map(
            e,
        ).insert(k, v).contains_key(x) by {
            if pairs_map(e2).contains_key(x) {
                let i = choose|i: int| 0 <= i < e2.len() && e2[i].0 == x;
                assert(e[i].0 == x);
            }
            if pairs_map(e).contains_key(x) {
                let i = choose|i: int| 0 <= i < e.len() && e[i].0 == x;
                assert(e2[i].0 == x);
            }
        }
        assert forall|x: Seq<char>| #[trigger] pairs_map(e2).contains_key(x) implies pairs_map(e2)[x]
            == pairs_map(e).insert(k, v)[x] by {
            let i = choose|i: int| 0 <= i < e2.len() && e2[i].0 == x;
            if i != j {
                assert(e2[i] == e[i]);
            }
        }
        assert(pairs_map(e2) =~= pairs_map(e).insert(k, v));
    } else {
        proof {
            if j < n {
                lemma_text_lt_total(e[j as int].0, k);
            }
        }
        entries.insert(j, (key, value));
        let ghost e2 = text_pairs(entries@);
        assert(e2 =~= e.insert(j as int, (k, v)));
        assert forall|a: int, b: int| 0 <= a < b < e2.len() implies text_lt(
            #[trigger] e2[a].0,
            #[trigger] e2[b].0,
        ) by {
            if b < j {
            } else if a < j && b == j {
            } else if a < j {
                // e2[a] = e[a] < k < e[j] <= e[b - 1]
                lemma_text_lt_transitive(e[a].0, k, e[j as int].0);
                if b - 1 > j {
                    lemma_text_lt_transitive(e[a].0, e[j as int].0, e[b - 1].0);
                }
            } else if a == j {
                if b - 1 > j {
                    lemma_text_lt_transitive(k, e[j as int].0, e[b - 1].0);
                }
            } else {
                assert(e2[a] == e[a - 1] && e2[b] == e[b - 1]);
            }
        }
        proof {
            lemma_ascending_distinct(e2);
            lemma_pairs_map_of_distinct(e2);
        }
        assert forall|x: Seq<char>| #[trigger] pairs_map(e2).contains_key(x) <==> pairs_map(
            e,
        ).insert(k, v).contains_key(x) by {
            if pairs_map(e2).contains_key(x) {
                let i = choose|i: int| 0 <= i < e2.len() && e2[i].0 == x;
                if i < j {
                    assert(e[i].0 == x);
                } else if i > j {
                    assert(e[i - 1].0 == x);
                }
            }
            if pairs_map(e).contains_key(x) {
                let i = choose|i: int| 0 <= i < e.len() && e[i].0 == x;
                if i < j {
                    assert(e2[i].0 == x);
                } else {
                    assert(e2[i + 1].0 == x);
                }
            }
            if x == k {
                assert(e2[j as int].0 == x);
            }
        }
        assert forall|x: Seq<char>| #[trigger] pairs_map(e2).contains_key(x) implies pairs_map(e2)[x]
            == pairs_map(e).insert(k, v)[x] by {
            let i = choose|i: int| 0 <= i < e2.len() && e2[i].0 == x;
            if i < j {
                assert(e2[i] == e[i]);
                lemma_text_lt_irreflexive(k);
                assert(e[i].0 != k);
            } else if i > j {
                assert(e2[i] == e[i - 1]);
                assert(e2[i].0 != e2[j as int].0);
            }
        }
        assert(pairs_map(e2) =~= pairs_map(e).insert(k, v));
    }
}

/// Metadata that may travel with a manifest: string keys and values, held in
/// ascending key order.
#[derive(PartialEq, Eq)]
pub struct SafeMetadata {
    entries: Vec<(String, String)>,
}

impl View for SafeMetadata {
    type V = Seq<(Seq<char>, Seq<char>)>;

    /// The key/value pairs, in ascending key order.
    closed spec fn view(&self) -> Seq<(Seq<char>, Seq<char>)> {
        text_pairs(self.entries@)
    }
}

impl SafeMetadata {
    #[verifier::type_invariant]
    spec fn ordered(self) -> bool {
        keys_ascending(text_pairs(self.entries@))
    }

    /// Metadata holding the given pairs; where a key is given twice, the later
    /// value is kept.
    pub fn from_pairs<const N: usize>(pairs: [(String, String); N]) -> (m: Self)
        ensures
            keys_ascending(m@),
            pairs_map(m@) == pairs_map(text_pairs(pairs@)),
    {
        Self::from_pair_slice(pairs.as_slice())
    }

    /// Metadata holding the listed pairs; where a key is listed twice, the
    /// later value is kept. Pairs already listed in ascending key order are
    /// kept as listed, so this undoes `pairs`.
    pub fn from_pair_slice(pairs: &[(String, String)]) -> (m: Self)
        ensures
            keys_ascending(m@),
            pairs_map(m@) == pairs_map(text_pairs(pairs@)),
            keys_ascending(text_pairs(pairs@)) ==> m@ == text_pairs(pairs@),
    {
        let ghost given = text_pairs(pairs@);
        let n = pairs.len();
        let mut entries: Vec<(String, String)> = Vec::new();
        let mut i: usize = 0;
        assert(given.take(0) =~= Seq::<(Seq<char>, Seq<char>)>::empty());
        assert(text_pairs(entries@) =~= Seq::<(Seq<char>, Seq<char>)>::empty());
        while i < n
            invariant
                i <= n,
                pairs@.len() == n,
                given == text_pairs(pairs@),
                keys_ascending(text_pairs(entries@)),
                pairs_map(text_pairs(entries@)) == pairs_map(given.take(i as int)),
            decreases n - i,
        {
            let key = pairs[i].0.clone();
            let value = pairs[i].1.clone();
            insert_entry(&mut entries, key, value);
            assert(given.take(i + 1).drop_last() =~= given.take(i as int));
            i = i + 1;
        }
        assert(given.take(n as int) =~= given);
        proof {
            if keys_ascending(given) {
                lemma_ascending_determined(text_pairs(entries@), given);
            }
        }
        SafeMetadata { entries }
    }

    /// The key/value pairs, in ascending key order.
    pub fn pairs(&self) -> (v: Vec<(String, String)>)
        ensures
            text_pairs(v@) == self@,
            keys_ascending(text_pairs(v@)),
    {
        proof {
            use_type_invariant(self);
        }
        let c = self.clone();
        c.entries
    }

    /// The first key, in ascending order, that looks like the name of a secret
    /// is refused; otherwise the metadata is accepted.
    pub fn validate(&self) -> (r: Result<(), MetadataValidationError>)
        ensures
            r is Ok <==> first_secret_key(self@) is None,
            r matches Err(e) ==> first_secret_key(self@) == Some(e@),
    {
        let n = self.entries.len();
        let ghost e = self@;
        let mut i: usize = 0;
        assert(e.skip(0) =~= e);
        while i < n
            invariant
                n == e.len(),
                e == self@,
                i <= n,
                first_secret_key(e) == first_secret_key(e.skip(i as int)),
            decreases n - i,
        {
            assert(e.skip(i as int)[0] == e[i as int]);
            if is_secret_like_key(self.entries[i].0.as_str()) {
                return Err(MetadataValidationError::SecretLikeKey(self.entries[i].0.clone()));
            }
            assert(e.skip(i as int).drop_first() =~= e.skip(i + 1));
            i = i + 1;
        }
        Ok(())
    }

    /// Appends the JSON object of the entries, in ascending key order.
    pub(crate) fn push_canonical_json(&self, out: &mut String)
        ensures
            final(out)@ == old(out)@ + string_map_json(self@),
    {
        let ghost start = out@;
        let ghost items = self@.map_values(
            |p: (Seq<char>, Seq<char>)| json_string(p.0) + ":"@ + json_string(p.1),
        );
        out.append("{");
        let n = self.entries.len();
        let mut i: usize = 0;
        assert(items.take(0) =~= Seq::<Seq<char>>::empty());
        while i < n
            invariant
                n == self@.len(),
                items == self@.map_values(
                    |p: (Seq<char>, Seq<char>)| json_string(p.0) + ":"@ + json_string(p.1),
                ),
                i <= n,
                out@ == start + "{"@ + join_commas(items.take(i as int)),
            decreases n - i,
        {
            if i > 0 {
                out.append(",");
            }
            push_json_string(out, self.entries[i].0.as_str());
            out.append(":");
            push_json_string(out, self.entries[i].1.as_str());
            assert(items.take(i + 1).drop_last() =~= items.take(i as int));
            assert(out@ =~= start + "{"@ + join_commas(items.take(i + 1)));
            i = i + 1;
        }
        out.append("}");
        assert(items.take(n as int) =~= items);
        assert(out@ =~= start + string_map_json(self@));
    }

    /// The canonical JSON object of the entries, keys in ascending order.
    pub fn canonical_json(&self) -> (j: String)
        ensures
            j@ == string_map_json(self@),
    {
        let mut out = String::new();
        self.push_canonical_json(&mut out);
        assert(out@ =~= string_map_json(self@));
        out
    }

    /// The stable hash of the metadata: `sha256:` and the lower-case hex of the
    /// SHA-256 digest of the UTF-8 bytes of its canonical JSON object.
    pub fn stable_hash(&self) -> (h: String)
        ensures
            h@ == metadata_hash(self@),
            is_sha256_hash(h@),
    {
        let json = self.canonical_json();
        stable_json_hash(json.as_str().as_bytes())
    }

    /// The debug text of the metadata, `SafeMetadata({...})`, which shows every
    /// key and replaces every value by `<redacted>`.
    pub fn debug_string(&self) -> (s: String)
        ensures
            s@ == redacted_debug(keys_of(self@)),
    {
        let ghost keys = keys_of(self@);
        let n = self.entries.len();
        let mut out = String::from_str("SafeMetadata({");
        let mut i: usize = 0;
        assert(keys.take(0) =~= Seq::<Seq<char>>::empty());
        while i < n
            invariant
                n == self@.len(),
                keys == keys_of(self@),
                i <= n,
                out@ == "SafeMetadata({"@ + debug_entries(keys.take(i as int)),
            decreases n - i,
        {
            if i > 0 {
                out.append(", ");
            }
            let quoted = debug_quoted(self.entries[i].0.as_str());
            out.append(quoted.as_str());
            out.append(": \"<redacted>\"");
            assert(keys.take(i + 1).drop_last() =~= keys.take(i as int));
            assert(out@ =~= "SafeMetadata({"@ + debug_entries(keys.take(i + 1)));
            i = i + 1;
        }
        out.append("})");
        assert(keys.take(n as int) =~= keys);
        out
    }
}

impl Clone for SafeMetadata {
    fn clone(&self) -> (m: Self)
        ensures
            m@ == self@,
    {
        proof {
            use_type_invariant(self);
        }
        let n = self.entries.len();
        let mut entries: Vec<(String, String)> = Vec::new();
        let mut i: usize = 0;
        while i < n
            invariant
                n == self.entries@.len(),
                i <= n,
                text_pairs(entries@) =~= text_pairs(self.entries@).take(i as int),
            decreases n - i,
        {
            let key = self.entries[i].0.clone();
            let value = self.entries[i].1.clone();
            let ghost before = entries@;
            entries.push((key, value));
            assert(text_pairs(entries@) =~= text_pairs(before).push(
                text_pairs(self.entries@)[i as int],
            ));
            assert(text_pairs(self.entries@).take(i + 1) =~= text_pairs(self.entries@).take(
                i as int,
            ).push(text_pairs(self.entries@)[i as int]));
            i = i + 1;
        }
        assert(text_pairs(entries@) =~= text_pairs(self.entries@));
        SafeMetadata { entries }
    }
}

impl Default for SafeMetadata {
    fn default() -> (m: Self)
        ensures
            m@ == Seq::<(Seq<char>, Seq<char>)>::empty(),
    {
        let m = SafeMetadata { entries: Vec::new() };
        assert(m@ =~= Seq::<(Seq<char>, Seq<char>)>::empty());
        m
    }
}

} // verus!
