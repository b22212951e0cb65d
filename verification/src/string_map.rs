//! A small map keyed by text, kept as a list of entries in which no key
//! occurs twice. An entry keeps its place when its value is replaced, and a
//! new key goes to the end.

use vstd::prelude::*;
use crate::text::same_text;

verus! {

/// No key occurs twice in `s`.
pub open spec fn distinct_keys<V>(s: Seq<(Seq<char>, V)>) -> bool {
    forall|i: int, j: int| 0 <= i < j < s.len() ==> (#[trigger] s[i]).0 != (#[trigger] s[j]).0
}

/// The place of `key` in `s`, or the length of `s` where it has none.
pub open spec fn position<V>(s: Seq<(Seq<char>, V)>, key: Seq<char>) -> int
    decreases s.len(),
{
    if s.len() == 0 {
        0
    } else if s[0].0 == key {
        0
    } else {
        1 + position(s.drop_first(), key)
    }
}

/// The value under `key`.
pub open spec fn lookup<V>(s: Seq<(Seq<char>, V)>, key: Seq<char>) -> Option<V> {
    let i = position(s, key);
    if i < s.len() {
        Some(s[i].1)
    } else {
        None
    }
}

/// `s` with `value` under `key`: in the place of the old value where the key
/// was there, at the end where it was not.
pub open spec fn upsert<V>(s: Seq<(Seq<char>, V)>, key: Seq<char>, value: V) -> Seq<
    (Seq<char>, V),
> {
    let i = position(s, key);
    if i < s.len() {
        s.update(i, (key, value))
    } else {
        s.push((key, value))
    }
}

/// `position` is the first place that holds the key.
pub proof fn lemma_position<V>(s: Seq<(Seq<char>, V)>, key: Seq<char>)
    ensures
        0 <= position(s, key) <= s.len(),
        position(s, key) < s.len() ==> s[position(s, key)].0 == key,
        forall|i: int| 0 <= i < position(s, key) ==> (#[trigger] s[i]).0 != key,
    decreases s.len(),
{
    if s.len() != 0 && s[0].0 != key {
        let t = s.drop_first();
        lemma_position(t, key);
        assert forall|i: int| 0 <= i < position(s, key) implies (#[trigger] s[i]).0 != key by {
            if i > 0 {
                assert(s[i] == t[i - 1]);
            }
        }
    }
}

/// Where no key occurs twice, the place of the key of an entry is the
/// place of that entry.
pub proof fn lemma_position_of_entry<V>(s: Seq<(Seq<char>, V)>, i: int)
    requires
        distinct_keys(s),
        0 <= i < s.len(),
    ensures
        position(s, s[i].0) == i,
        lookup(s, s[i].0) == Some(s[i].1),
{
    lemma_position(s, s[i].0);
    let p = position(s, s[i].0);
    if p < i {
        assert(s[p].0 != s[i].0);
    }
}

/// `upsert` keeps the keys distinct, makes `key` map to `value`, and leaves
/// every other key as it was.
pub proof fn lemma_upsert<V>(s: Seq<(Seq<char>, V)>, key: Seq<char>, value: V)
    requires
        distinct_keys(s),
    ensures
        distinct_keys(upsert(s, key, value)),
        lookup(upsert(s, key, value), key) == Some(value),
        forall|k: Seq<char>| k != key ==> lookup(upsert(s, key, value), k) == lookup(s, k),
{
    lemma_position(s, key);
    let p = position(s, key);
    let u = upsert(s, key, value);
    assert(u[p] == (key, value));
    assert(distinct_keys(u)) by {
        assert forall|i: int, j: int| 0 <= i < j < u.len() implies (#[trigger] u[i]).0 != (
        #[trigger] u[j]).0 by {
            if p < s.len() {
                assert(u[i].0 == s[i].0 && u[j].0 == s[j].0);
            } else if j == p {
                assert(u[i] == s[i]);
            } else {
                assert(u[i] == s[i] && u[j] == s[j]);
            }
        }
    }
    lemma_position_of_entry(u, p);
    assert forall|k: Seq<char>| k != key implies lookup(u, k) == lookup(s, k) by {
        lemma_position(s, k);
        lemma_position(u, k);
        let a = position(s, k);
        let b = position(u, k);
        if a < s.len() {
            assert(u[a] == s[a]);
            if b < a {
                assert(u[b].0 == s[b].0);
            }
            if a < b {
                assert(b <= u.len());
            }
            assert(a == b);
        } else {
            if b < u.len() {
                if b < s.len() {
                    assert(u[b].0 == s[b].0);
                }
            }
        }
    }
}

/// `s` with `f` applied to each value.
pub open spec fn map_entries<V, W>(s: Seq<(Seq<char>, V)>, f: spec_fn(V) -> W) -> Seq<
    (Seq<char>, W),
> {
    s.map_values(|e: (Seq<char>, V)| (e.0, f(e.1)))
}

/// Applying a function to the values moves no key, and commutes with
/// `lookup` and `upsert`.
pub proof fn lemma_map_entries<V, W>(
    s: Seq<(Seq<char>, V)>,
    f: spec_fn(V) -> W,
    key: Seq<char>,
    value: V,
)
    ensures
        position(map_entries(s, f), key) == position(s, key),
        lookup(map_entries(s, f), key) == match lookup(s, key) {
            Some(v) => Some(f(v)),
            None => None,
        },
        upsert(map_entries(s, f), key, f(value)) == map_entries(upsert(s, key, value), f),
    decreases s.len(),
{
    let t = map_entries(s, f);
    if s.len() != 0 {
        assert(t[0].0 == s[0].0);
        if s[0].0 != key {
            lemma_map_entries(s.drop_first(), f, key, value);
            assert(t.drop_first() =~= map_entries(s.drop_first(), f));
        }
    }
    lemma_position(s, key);
    assert(upsert(t, key, f(value)) =~= map_entries(upsert(s, key, value), f));
}

/// The entries of `s` as a map from key to value.
pub open spec fn as_map<V>(s: Seq<(Seq<char>, V)>) -> Map<Seq<char>, V> {
    Map::new(|k: Seq<char>| lookup(s, k) is Some, |k: Seq<char>| lookup(s, k)->Some_0)
}

/// `upsert` on the list is `insert` on the map.
pub proof fn lemma_as_map_upsert<V>(s: Seq<(Seq<char>, V)>, key: Seq<char>, value: V)
    requires
        distinct_keys(s),
    ensures
        as_map(upsert(s, key, value)) == as_map(s).insert(key, value),
{
    lemma_upsert(s, key, value);
    assert(as_map(upsert(s, key, value)) =~= as_map(s).insert(key, value));
}

/// The entries of a map of strings, each value as text.
pub open spec fn text_entries(s: Seq<(Seq<char>, String)>) -> Seq<(Seq<char>, Seq<char>)> {
    map_entries(s, |v: String| v@)
}

/// Putting a string into a map of strings puts its text into the entries.
pub proof fn lemma_text_entries_upsert(s: Seq<(Seq<char>, String)>, key: Seq<char>, value: String)
    ensures
        text_entries(upsert(s, key, value)) == upsert(text_entries(s), key, value@),
{
    lemma_map_entries(s, |v: String| v@, key, value);
}

/// A map from text to `V`.
#[derive(Debug)]
pub struct StringMap<V> {
    entries: Vec<(String, V)>,
}

impl<V> View for StringMap<V> {
    type V = Seq<(Seq<char>, V)>;

    /// The entries in their order, each key as text.
    closed spec fn view(&self) -> Seq<(Seq<char>, V)> {
        self.entries@.map_values(|e: (String, V)| (e.0@, e.1))
    }
}

impl<V> StringMap<V> {
    #[verifier::type_invariant]
    spec fn keys_are_distinct(self) -> bool {
        distinct_keys(self@)
    }

    /// The map without entries.
    pub fn new() -> (r: Self)
        ensures
            r@ == Seq::<(Seq<char>, V)>::empty(),
    {
        let r = StringMap { entries: Vec::new() };
        assert(r@ =~= Seq::<(Seq<char>, V)>::empty());
        r
    }

    /// The number of entries, none of which shares its key with another.
    pub fn len(&self) -> (r: usize)
        ensures
            r == self@.len(),
            distinct_keys(self@),
    {
        proof {
            use_type_invariant(self);
        }
        self.entries.len()
    }

    /// The key of the entry at `i`.
    pub fn key_at(&self, i: usize) -> (r: &String)
        requires
            i < self@.len(),
        ensures
            r@ == self@[i as int].0,
    {
        &self.entries[i].0
    }

    /// The value of the entry at `i`.
    pub fn value_at(&self, i: usize) -> (r: &V)
        requires
            i < self@.len(),
        ensures
            *r == self@[i as int].1,
    {
        &self.entries[i].1
    }

    fn find(&self, key: &str) -> (r: usize)
        ensures
            r == position(self@, key@),
            r <= self@.len(),
    {
        let mut i: usize = 0;
        while i < self.entries.len()
            invariant
                i <= self.entries.len(),
                forall|j: int| 0 <= j < i ==> (#[trigger] self@[j]).0 != key@,
                self@.len() == self.entries.len(),
            decreases self.entries.len() - i,
        {
            if same_text(self.entries[i].0.as_str(), key) {
                proof {
                    lemma_position(self@, key@);
                    let p = position(self@, key@);
                    assert(self@[i as int].0 == key@);
                    if p < i {
                        assert(self@[p].0 != key@);
                    }
                }
                return i;
            }
            i += 1;
        }
        proof {
            lemma_position(self@, key@);
            let p = position(self@, key@);
            if p < i {
                assert(self@[p].0 != key@);
            }
        }
        i
    }

    /// Whether `key` has an entry.
    pub fn contains_key(&self, key: &str) -> (r: bool)
        ensures
            r == lookup(self@, key@).is_some(),
    {
        self.find(key) < self.entries.len()
    }

    /// The value under `key`.
    pub fn get(&self, key: &str) -> (r: Option<&V>)
        ensures
            match r {
                Some(v) => lookup(self@, key@) == Some(*v),
                None => lookup(self@, key@) is None,
            },
    {
        let i = self.find(key);
        if i < self.entries.len() {
            Some(&self.entries[i].1)
        } else {
            None
        }
    }

    /// Puts `value` under `key`, in the place of an earlier value or at the
    /// end.
    pub fn insert(&mut self, key: String, value: V)
        ensures
            final(self)@ == upsert(old(self)@, key@, value),
            distinct_keys(final(self)@),
    {
        proof {
            use_type_invariant(&*self);
            lemma_upsert(self@, key@, value);
        }
        let i = self.find(key.as_str());
        let ghost before = self@;
        let mut entries: Vec<(String, V)> = Vec::new();
        assert(entries@.map_values(|e: (String, V)| (e.0@, e.1)) =~= Seq::<
            (Seq<char>, V),
        >::empty());
        core::mem::swap(&mut self.entries, &mut entries);
        if i < entries.len() {
            entries.set(i, (key, value));
            assert(entries@.map_values(|e: (String, V)| (e.0@, e.1)) =~= before.update(
                i as int,
                (key@, value),
            ));
        } else {
            entries.push((key, value));
            assert(entries@.map_values(|e: (String, V)| (e.0@, e.1)) =~= before.push(
                (key@, value),
            ));
        }
        self.entries = entries;
    }
}

impl<V: Clone> Clone for StringMap<V> {
    /// A map with the same keys in the same places, each beside a clone of
    /// its value.
    fn clone(&self) -> (r: Self)
        ensures
            r@.len() == self@.len(),
            forall|i: int|
                0 <= i < self@.len() ==> (#[trigger] r@[i]).0 == self@[i].0 && cloned(
                    self@[i].1,
                    r@[i].1,
                ),
    {
        proof {
            use_type_invariant(self);
        }
        let mut entries: Vec<(String, V)> = Vec::new();
        let mut i: usize = 0;
        while i < self.entries.len()
            invariant
                i <= self.entries.len(),
                entries@.len() == i,
                forall|j: int|
                    0 <= j < i ==> (#[trigger] entries@[j]).0@ == self.entries@[j].0@ && cloned(
                        self.entries@[j].1,
                        entries@[j].1,
                    ),
            decreases self.entries.len() - i,
        {
            let key = self.entries[i].0.clone();
            let value = self.entries[i].1.clone();
            entries.push((key, value));
            i += 1;
        }
        let ghost s = entries@.map_values(|e: (String, V)| (e.0@, e.1));
        assert(distinct_keys(s)) by {
            assert forall|a: int, b: int| 0 <= a < b < s.len() implies (#[trigger] s[a]).0 != (
            #[trigger] s[b]).0 by {
                assert(s[a].0 == self@[a].0 && s[b].0 == self@[b].0);
            }
        }
        StringMap { entries }
    }
}

} // verus!
