//! The key-value metadata that travels with an object.
//!
//! A `Metadata` is a finite mapping from text to text. The order in which the
//! entries were inserted carries no meaning. It is kept as a list of pairs
//! without a repeated key: the ordered map of the standard library is
//! specified only for keys whose ordering is known to obey its laws, which
//! is not known of `String`, so that nothing could be proved of an insertion
//! into such a map.

use vstd::prelude::*;

verus! {

/// What the outside encoder makes of a mapping from text to text: the text of
/// the JSON object that holds one member for each entry.
pub uninterp spec fn json_object_text(entries: Map<Seq<char>, Seq<char>>) -> Seq<char>;

/// The position of `key` among `entries`, where it occurs.
pub open spec fn position_of(entries: Seq<(String, String)>, key: Seq<char>) -> int {
    choose|i: int| 0 <= i < entries.len() && entries[i].0@ == key
}

/// Whether `key` occurs among `entries`.
pub open spec fn has_key(entries: Seq<(String, String)>, key: Seq<char>) -> bool {
    exists|i: int| 0 <= i < entries.len() && entries[i].0@ == key
}

/// Whether no key occurs twice among `entries`.
pub open spec fn distinct_keys(entries: Seq<(String, String)>) -> bool {
    forall|i: int, j: int| 0 <= i < j < entries.len() ==> entries[i].0@ != entries[j].0@
}

/// The mapping that a list of pairs stands for. Where a key occurs more than
/// once, the pair that comes last decides.
pub open spec fn pairs_map(pairs: Seq<(String, String)>) -> Map<Seq<char>, Seq<char>>
    decreases pairs.len(),
{
    if pairs.len() == 0 {
        Map::empty()
    } else {
        pairs_map(pairs.drop_last()).insert(pairs.last().0@, pairs.last().1@)
    }
}

/// A finite mapping from text to text.
#[derive(Debug)]
pub struct Metadata {
    entries: Vec<(String, String)>,
}

impl View for Metadata {
    type V = Map<Seq<char>, Seq<char>>;

    closed spec fn view(&self) -> Map<Seq<char>, Seq<char>> {
        Map::new(
            |key: Seq<char>| has_key(self.entries@, key),
            |key: Seq<char>| self.entries@[position_of(self.entries@, key)].1@,
        )
    }
}

impl Clone for Metadata {
    fn clone(&self) -> (copy: Self)
        ensures
            copy@ == self@,
    {
        proof {
            use_type_invariant(self);
        }
        let mut entries: Vec<(String, String)> = Vec::new();
        let mut i: usize = 0;
        while i < self.entries.len()
            invariant
                i <= self.entries@.len(),
                entries@.len() == i,
                forall|k: int| 0 <= k < i ==> entries@[k] == self.entries@[k],
            decreases self.entries@.len() - i,
        {
            let key = self.entries[i].0.clone();
            let value = self.entries[i].1.clone();
            entries.push((key, value));
            i += 1;
        }
        assert(entries@ =~= self.entries@);
        Metadata { entries }
    }
}

impl Metadata {
    #[verifier::type_invariant]
    spec fn well_formed(self) -> bool {
        distinct_keys(self.entries@)
    }

    /// The empty mapping.
    pub fn new() -> (empty: Self)
        ensures
            empty@ == Map::<Seq<char>, Seq<char>>::empty(),
    {
        let empty = Metadata { entries: Vec::new() };
        assert(empty@ =~= Map::<Seq<char>, Seq<char>>::empty());
        empty
    }

    /// The number of entries.
    pub fn len(&self) -> (n: usize)
        ensures
            n == self@.len(),
            self@.dom().finite(),
    {
        proof {
            use_type_invariant(self);
            lemma_domain_size(self.entries@);
            assert(self@.dom() =~= key_set(self.entries@));
        }
        self.entries.len()
    }

    /// Where `key` stands among the entries, if it is there.
    fn find(&self, key: &str) -> (at: Option<usize>)
        ensures
            match at {
                Some(i) => i < self.entries@.len() && self.entries@[i as int].0@ == key@,
                None => !has_key(self.entries@, key@),
            },
    {
        let wanted = String::from_str(key);
        let mut i: usize = 0;
        while i < self.entries.len()
            invariant
                wanted@ == key@,
                i <= self.entries@.len(),
                forall|k: int| 0 <= k < i ==> self.entries@[k].0@ != key@,
            decreases self.entries@.len() - i,
        {
            if self.entries[i].0 == wanted {
                return Some(i);
            }
            i += 1;
        }
        None
    }

    /// The value filed under `key`, if there is one.
    pub fn get(&self, key: &str) -> (value: Option<&String>)
        ensures
            match value {
                Some(v) => self@.contains_key(key@) && self@[key@] == v@,
                None => !self@.contains_key(key@),
            },
    {
        proof {
            use_type_invariant(self);
        }
        match self.find(key) {
            Some(i) => {
                assert(has_key(self.entries@, key@));
                assert(position_of(self.entries@, key@) == i);
                Some(&self.entries[i].1)
            },
            None => None,
        }
    }

    /// Files `value` under `key`, in place of what may have stood there.
    pub fn insert(&mut self, key: String, value: String)
        ensures
            final(self)@ == old(self)@.insert(key@, value@),
    {
        proof {
            use_type_invariant(&*self);
        }
        let ghost before = self.entries@;
        let found = self.find(key.as_str());
        let mut taken = Metadata::new();
        core::mem::swap(self, &mut taken);
        let mut entries = taken.entries;
        match found {
            Some(i) => {
                entries.set(i, (key, value));
                proof {
                    let after = entries@;
                    assert forall|k: Seq<char>| has_key(after, k) == has_key(before, k) by {
                        if has_key(before, k) {
                            let j = position_of(before, k);
                            assert(after[j].0@ == k);
                        }
                        if has_key(after, k) {
                            let j = position_of(after, k);
                            assert(before[j].0@ == k);
                        }
                    }
                    assert forall|k: Seq<char>| has_key(after, k) implies after[position_of(
                        after,
                        k,
                    )].1@ == (if k == key@ {
                        value@
                    } else {
                        before[position_of(before, k)].1@
                    }) by {
                        let j = position_of(after, k);
                        assert(before[j].0@ == k);
                        assert(position_of(before, k) == j);
                    }
                    assert(has_key(before, key@));
                }
            },
            None => {
                entries.push((key, value));
                proof {
                    let after = entries@;
                    let last = before.len() as int;
                    assert(after[last].0@ == key@);
                    assert forall|k: Seq<char>| has_key(after, k) == (k == key@ || has_key(
                        before,
                        k,
                    )) by {
                        if has_key(before, k) {
                            let j = position_of(before, k);
                            assert(after[j].0@ == k);
                        }
                        if has_key(after, k) {
                            let j = position_of(after, k);
                            if j < last {
                                assert(before[j].0@ == k);
                            }
                        }
                    }
                    assert forall|k: Seq<char>| has_key(after, k) implies after[position_of(
                        after,
                        k,
                    )].1@ == (if k == key@ {
                        value@
                    } else {
                        before[position_of(before, k)].1@
                    }) by {
                        let j = position_of(after, k);
                        if k == key@ {
                            assert(j == last);
                        } else {
                            assert(before[j].0@ == k);
                            assert(position_of(before, k) == j);
                        }
                    }
                }
            },
        }
        *self = Metadata { entries };
        assert(self@ =~= old(self)@.insert(key@, value@));
    }

    /// The mapping that `pairs` stands for, a later pair replacing an earlier
    /// one with the same key.
    pub fn from_pairs(pairs: Vec<(String, String)>) -> (built: Self)
        ensures
            built@ == pairs_map(pairs@),
    {
        let mut built = Metadata::new();
        let mut i: usize = 0;
        while i < pairs.len()
            invariant
                i <= pairs@.len(),
                built@ == pairs_map(pairs@.subrange(0, i as int)),
            decreases pairs@.len() - i,
        {
            let key = pairs[i].0.clone();
            let value = pairs[i].1.clone();
            built.insert(key, value);
            proof {
                let upto = pairs@.subrange(0, i + 1);
                assert(upto.drop_last() =~= pairs@.subrange(0, i as int));
                assert(upto.last() == pairs@[i as int]);
            }
            i += 1;
        }
        assert(pairs@.subrange(0, pairs@.len() as int) =~= pairs@);
        built
    }

    /// The entries as a list of pairs, each key once.
    pub fn pairs(&self) -> (listed: &Vec<(String, String)>)
        ensures
            distinct_keys(listed@),
            pairs_map(listed@) == self@,
    {
        proof {
            use_type_invariant(self);
            lemma_pairs_map(self.entries@);
            assert(pairs_map(self.entries@) =~= self@);
        }
        &self.entries
    }

    /// The text of the JSON object with one member for each entry. The
    /// encoder fails on no mapping from text to text, so the result is `Ok`
    /// for every mapping.
    pub fn to_json(&self) -> (encoded: Result<String, String>)
        ensures
            encoded is Ok,
            encoded matches Ok(text) ==> text@ == json_object_text(self@),
    {
        encode_object(self)
    }
}

/// The keys that occur among `entries`.
pub open spec fn key_set(entries: Seq<(String, String)>) -> Set<Seq<char>> {
    Set::new(|key: Seq<char>| has_key(entries, key))
}

/// A list of pairs without a repeated key has as many keys as pairs.
proof fn lemma_domain_size(entries: Seq<(String, String)>)
    requires
        distinct_keys(entries),
    ensures
        key_set(entries).finite(),
        key_set(entries).len() == entries.len(),
    decreases entries.len(),
{
    if entries.len() == 0 {
        assert(key_set(entries) =~= Set::<Seq<char>>::empty());
    } else {
        let front = entries.drop_last();
        let key = entries.last().0@;
        lemma_domain_size(front);
        assert(!has_key(front, key)) by {
            if has_key(front, key) {
                let j = position_of(front, key);
                assert(entries[j].0@ == key);
            }
        }
        assert forall|k: Seq<char>| has_key(entries, k) == (k == key || has_key(front, k)) by {
            if has_key(front, k) {
                let j = position_of(front, k);
                assert(entries[j].0@ == k);
            }
            if has_key(entries, k) {
                let j = position_of(entries, k);
                if j < front.len() {
                    assert(front[j].0@ == k);
                }
            }
            if k == key {
                assert(entries[entries.len() - 1].0@ == k);
            }
        }
        assert(key_set(entries) =~= key_set(front).insert(key));
    }
}

/// Where no key is repeated, the mapping of a list of pairs holds each pair.
proof fn lemma_pairs_map(entries: Seq<(String, String)>)
    requires
        distinct_keys(entries),
    ensures
        forall|k: Seq<char>| pairs_map(entries).contains_key(k) == has_key(entries, k),
        forall|i: int|
            0 <= i < entries.len() ==> pairs_map(entries)[#[trigger] entries[i].0@]
                == entries[i].1@,
    decreases entries.len(),
{
    if entries.len() > 0 {
        let front = entries.drop_last();
        let key = entries.last().0@;
        lemma_pairs_map(front);
        assert forall|k: Seq<char>| pairs_map(entries).contains_key(k) == has_key(
            entries,
            k,
        ) by {
            if has_key(front, k) {
                let j = position_of(front, k);
                assert(entries[j].0@ == k);
            }
            if has_key(entries, k) {
                let j = position_of(entries, k);
                if j < front.len() {
                    assert(front[j].0@ == k);
                }
            }
            if k == key {
                assert(entries[entries.len() - 1].0@ == k);
            }
        }
        assert forall|i: int| 0 <= i < entries.len() implies pairs_map(
            entries,
        )[#[trigger] entries[i].0@] == entries[i].1@ by {
            if i < front.len() {
                assert(front[i] == entries[i]);
            }
        }
    }
}

/// Calls `serde_json::to_string` on the entries, held in a `BTreeMap` as the
/// encoder expects a map, and renders the encoder's error as text. The
/// contract claims that the encoder succeeds, names the text that comes
/// back, and claims that it depends on the mapping alone. The encoder's
/// documentation gives two ways to fail: a value that decides to fail when
/// it is serialized, and a map whose keys are no strings. A map from strings
/// to strings is neither, and the text is written to a buffer in memory.
#[verifier::external_body]
fn encode_object(metadata: &Metadata) -> (encoded: Result<String, String>)
    ensures
        encoded is Ok,
        encoded matches Ok(text) ==> text@ == json_object_text(metadata@),
{
    let map: std::collections::BTreeMap<&String, &String> =
        metadata.entries.iter().map(|pair| (&pair.0, &pair.1)).collect();
    serde_json::to_string(&map).map_err(|error| error.to_string())
}

} // verus!
