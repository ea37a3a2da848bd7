//! A string-keyed map of JSON values attached to a session.

use vstd::prelude::*;

verus! {

#[verifier::external_type_specification]
#[verifier::external_body]
pub struct ExJsonValue(serde_json::Value);

/// Relies on serde_json's derived `Clone` for `Value`: an equal value.
pub assume_specification[ <serde_json::Value as Clone>::clone ](v: &serde_json::Value) -> (r:
    serde_json::Value)
    ensures
        r == *v,
;

/// The map that a sequence of entries stands for: a later entry for a key
/// replaces an earlier one.
pub open spec fn map_of(entries: Seq<(String, serde_json::Value)>) -> Map<Seq<char>, serde_json::Value>
    decreases entries.len(),
{
    if entries.len() == 0 {
        Map::empty()
    } else {
        let last = entries.last();
        map_of(entries.drop_last()).insert(last.0@, last.1)
    }
}

/// Whether `i` is the last position of `entries` that holds key `k`.
pub open spec fn last_with_key(entries: Seq<(String, serde_json::Value)>, k: Seq<char>, i: int) -> bool {
    0 <= i < entries.len() && entries[i].0@ == k && forall|j: int|
        i < j < entries.len() ==> #[trigger] entries[j].0@ != k
}

proof fn lemma_absent(entries: Seq<(String, serde_json::Value)>, k: Seq<char>)
    requires
        forall|j: int| 0 <= j < entries.len() ==> #[trigger] entries[j].0@ != k,
    ensures
        !map_of(entries).contains_key(k),
    decreases entries.len(),
{
    if entries.len() > 0 {
        let rest = entries.drop_last();
        assert forall|j: int| 0 <= j < rest.len() implies #[trigger] rest[j].0@ != k by {
            assert(rest[j] == entries[j]);
        }
        lemma_absent(rest, k);
        assert(entries[entries.len() - 1].0@ != k);
    }
}

proof fn lemma_lookup(entries: Seq<(String, serde_json::Value)>, k: Seq<char>, i: int)
    requires
        last_with_key(entries, k, i),
    ensures
        map_of(entries).contains_key(k),
        map_of(entries)[k] == entries[i].1,
    decreases entries.len(),
{
    let n = entries.len();
    if i < n - 1 {
        let rest = entries.drop_last();
        assert forall|j: int| i < j < rest.len() implies #[trigger] rest[j].0@ != k by {
            assert(rest[j] == entries[j]);
        }
        assert(entries[n - 1].0@ != k);
        lemma_lookup(rest, k, i);
    }
}

proof fn lemma_replace(
    entries: Seq<(String, serde_json::Value)>,
    k: Seq<char>,
    i: int,
    e: (String, serde_json::Value),
)
    requires
        last_with_key(entries, k, i),
        e.0@ == k,
    ensures
        map_of(entries.update(i, e)) == map_of(entries).insert(k, e.1),
    decreases entries.len(),
{
    let n = entries.len();
    let updated = entries.update(i, e);
    let rest = entries.drop_last();
    if i == n - 1 {
        assert(updated.drop_last() =~= rest);
        assert(map_of(updated) =~= map_of(entries).insert(k, e.1));
    } else {
        assert forall|j: int| i < j < rest.len() implies #[trigger] rest[j].0@ != k by {
            assert(rest[j] == entries[j]);
        }
        lemma_replace(rest, k, i, e);
        assert(updated.drop_last() =~= rest.update(i, e));
        assert(entries[n - 1].0@ != k);
        assert(map_of(updated) =~= map_of(entries).insert(k, e.1));
    }
}

/// Metadata of a session: values keyed by name.
#[derive(Debug)]
pub struct Metadata {
    entries: Vec<(String, serde_json::Value)>,
}

impl View for Metadata {
    type V = Map<Seq<char>, serde_json::Value>;

    closed spec fn view(&self) -> Map<Seq<char>, serde_json::Value> {
        map_of(self.entries@)
    }
}

impl Clone for Metadata {
    fn clone(&self) -> (r: Metadata)
        ensures
            r@ == self@,
    {
        let mut entries: Vec<(String, serde_json::Value)> = Vec::new();
        let n = self.entries.len();
        let mut i: usize = 0;
        while i < n
            invariant
                n == self.entries@.len(),
                i <= n,
                entries@ == self.entries@.subrange(0, i as int),
            decreases n - i,
        {
            let (k, v) = &self.entries[i];
            entries.push((k.clone(), v.clone()));
            proof {
                assert(entries@ =~= self.entries@.subrange(0, i + 1));
            }
            i = i + 1;
        }
        proof {
            assert(entries@ =~= self.entries@);
        }
        Metadata { entries }
    }
}

impl Metadata {
    /// No entries.
    pub fn new() -> (r: Metadata)
        ensures
            r@ == Map::<Seq<char>, serde_json::Value>::empty(),
    {
        Metadata { entries: Vec::new() }
    }

    /// The last position that holds `key`, if any.
    fn position(&self, key: &str) -> (r: Option<usize>)
        ensures
            r is Some ==> last_with_key(self.entries@, key@, r->Some_0 as int),
            r is None ==> forall|j: int|
                0 <= j < self.entries@.len() ==> #[trigger] self.entries@[j].0@ != key@,
    {
        let k = key.to_string();
        let mut i = self.entries.len();
        while i > 0
            invariant
                k@ == key@,
                i <= self.entries@.len(),
                forall|j: int| i <= j < self.entries@.len() ==> #[trigger] self.entries@[j].0@ != key@,
            decreases i,
        {
            i = i - 1;
            if self.entries[i].0 == k {
                return Some(i);
            }
        }
        None
    }

    /// The value under `key`, if any.
    pub fn get(&self, key: &str) -> (r: Option<&serde_json::Value>)
        ensures
            r is Some <==> self@.contains_key(key@),
            r is Some ==> *r->Some_0 == self@[key@],
    {
        match self.position(key) {
            Some(i) => {
                proof {
                    lemma_lookup(self.entries@, key@, i as int);
                }
                Some(&self.entries[i].1)
            },
            None => {
                proof {
                    lemma_absent(self.entries@, key@);
                }
                None
            },
        }
    }

    /// Sets `key` to `value`, replacing what it held.
    pub fn insert(&mut self, key: &str, value: serde_json::Value)
        ensures
            final(self)@ == old(self)@.insert(key@, value),
    {
        let entry = (key.to_string(), value);
        match self.position(key) {
            Some(i) => {
                proof {
                    lemma_replace(self.entries@, key@, i as int, entry);
                }
                self.entries.set(i, entry);
            },
            None => {
                proof {
                    assert(self.entries@.push(entry).drop_last() =~= self.entries@);
                }
                self.entries.push(entry);
            },
        }
    }

    /// The entries, one per key, in the order in which the keys were first set.
    pub fn entries(&self) -> (r: &Vec<(String, serde_json::Value)>)
        ensures
            map_of(r@) == self@,
    {
        &self.entries
    }
}

} // verus!
