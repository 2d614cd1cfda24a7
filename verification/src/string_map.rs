//! Maps from text.
use crate::text::same_text;
use vstd::prelude::*;

verus! {

/// A map from text to values, where each key has one value.
#[derive(Debug)]
pub struct StringMap<V> {
    entries: Vec<(String, V)>,
}

/// No key occurs twice.
spec fn distinct_keys<V>(entries: Seq<(String, V)>) -> bool {
    forall|i: int, j: int|
        0 <= i < j < entries.len() ==> #[trigger] entries[i].0@ != #[trigger] entries[j].0@
}

/// Whether an entry has the key.
spec fn is_entry_of<V>(entries: Seq<(String, V)>, key: Seq<char>, i: int) -> bool {
    0 <= i < entries.len() && entries[i].0@ == key
}

/// The map that a list of entries makes up.
spec fn entries_map<V>(entries: Seq<(String, V)>) -> Map<Seq<char>, V> {
    Map::new(
        |key: Seq<char>| exists|i: int| is_entry_of(entries, key, i),
        |key: Seq<char>| entries[choose|i: int| is_entry_of(entries, key, i)].1,
    )
}

proof fn lemma_entry<V>(entries: Seq<(String, V)>, i: int)
    requires
        distinct_keys(entries),
        0 <= i < entries.len(),
    ensures
        entries_map(entries).contains_key(entries[i].0@),
        entries_map(entries)[entries[i].0@] == entries[i].1,
{
    let key = entries[i].0@;
    assert(is_entry_of(entries, key, i));
    let j = choose|j: int| is_entry_of(entries, key, j);
    assert(is_entry_of(entries, key, j));
    assert(i == j);
}

proof fn lemma_replaced<V>(entries: Seq<(String, V)>, i: int, key: String, value: V)
    requires
        distinct_keys(entries),
        is_entry_of(entries, key@, i),
    ensures
        distinct_keys(entries.update(i, (key, value))),
        entries_map(entries.update(i, (key, value))) == entries_map(entries).insert(key@, value),
{
    let new = entries.update(i, (key, value));
    assert(distinct_keys(new));
    assert forall|k: Seq<char>| #[trigger]
        entries_map(new).contains_key(k) == entries_map(entries).insert(key@, value).contains_key(
            k,
        ) && (entries_map(new).contains_key(k) ==> entries_map(new)[k] == entries_map(
            entries,
        ).insert(key@, value)[k]) by {
        lemma_entry(new, i);
        if k != key@ {
            if entries_map(new).contains_key(k) {
                let j = choose|j: int| is_entry_of(new, k, j);
                lemma_entry(new, j);
                lemma_entry(entries, j);
            }
            if entries_map(entries).contains_key(k) {
                let j = choose|j: int| is_entry_of(entries, k, j);
                lemma_entry(new, j);
                lemma_entry(entries, j);
            }
        }
    }
    assert(entries_map(new) =~= entries_map(entries).insert(key@, value));
}

proof fn lemma_added<V>(entries: Seq<(String, V)>, key: String, value: V)
    requires
        distinct_keys(entries),
        forall|i: int| !is_entry_of(entries, key@, i),
    ensures
        distinct_keys(entries.push((key, value))),
        entries_map(entries.push((key, value))) == entries_map(entries).insert(key@, value),
{
    let new = entries.push((key, value));
    let last = entries.len() as int;
    assert forall|i: int, j: int| 0 <= i < j < new.len() implies #[trigger] new[i].0@
        != #[trigger] new[j].0@ by {
        assert(!is_entry_of(entries, key@, i));
    }
    lemma_entry(new, last);
    assert forall|k: Seq<char>| #[trigger]
        entries_map(new).contains_key(k) == entries_map(entries).insert(key@, value).contains_key(
            k,
        ) && (entries_map(new).contains_key(k) ==> entries_map(new)[k] == entries_map(
            entries,
        ).insert(key@, value)[k]) by {
        if k != key@ {
            if entries_map(new).contains_key(k) {
                let j = choose|j: int| is_entry_of(new, k, j);
                lemma_entry(new, j);
                lemma_entry(entries, j);
            }
            if entries_map(entries).contains_key(k) {
                let j = choose|j: int| is_entry_of(entries, k, j);
                lemma_entry(new, j);
                lemma_entry(entries, j);
            }
        }
    }
    assert(entries_map(new) =~= entries_map(entries).insert(key@, value));
}

impl<V> View for StringMap<V> {
    type V = Map<Seq<char>, V>;

    closed spec fn view(&self) -> Map<Seq<char>, V> {
        entries_map(self.entries@)
    }
}

impl<V> StringMap<V> {
    #[verifier::type_invariant]
    spec fn well_formed(self) -> bool {
        distinct_keys(self.entries@)
    }

    /// An empty map.
    pub fn new() -> (r: Self)
        ensures
            r@ == Map::<Seq<char>, V>::empty(),
    {
        let r = StringMap { entries: Vec::new() };
        assert(r@ =~= Map::<Seq<char>, V>::empty());
        r
    }

    /// Where the key stands among the entries.
    fn find(entries: &Vec<(String, V)>, key: &str) -> (r: Option<usize>)
        ensures
            match r {
                Some(i) => is_entry_of(entries@, key@, i as int),
                None => forall|i: int| !is_entry_of(entries@, key@, i),
            },
    {
        let mut i: usize = 0;
        while i < entries.len()
            invariant
                i <= entries@.len(),
                forall|j: int| 0 <= j < i ==> !is_entry_of(entries@, key@, j),
            decreases entries@.len() - i,
        {
            if same_text(entries[i].0.as_str(), key) {
                return Some(i);
            }
            i = i + 1;
        }
        None
    }

    /// The value of a key.
    pub fn get(&self, key: &str) -> (r: Option<&V>)
        ensures
            r is Some <==> self@.contains_key(key@),
            r matches Some(value) ==> *value == self@[key@],
    {
        proof {
            use_type_invariant(self);
        }
        match Self::find(&self.entries, key) {
            Some(i) => {
                proof {
                    lemma_entry(self.entries@, i as int);
                }
                Some(&self.entries[i].1)
            },
            None => None,
        }
    }

    /// Gives a key a value, in place of the one that it may have.
    pub fn insert(&mut self, key: String, value: V)
        ensures
            final(self)@ == old(self)@.insert(key@, value),
    {
        proof {
            use_type_invariant(&*self);
        }
        let mut entries: Vec<(String, V)> = Vec::new();
        std::mem::swap(&mut entries, &mut self.entries);
        match Self::find(&entries, key.as_str()) {
            Some(i) => {
                proof {
                    lemma_replaced(entries@, i as int, key, value);
                }
                entries.set(i, (key, value));
            },
            None => {
                proof {
                    lemma_added(entries@, key, value);
                }
                entries.push((key, value));
            },
        }
        self.entries = entries;
    }

    /// The keys with their values, each once.
    pub fn entries(&self) -> (r: &Vec<(String, V)>)
        ensures
            forall|i: int|
                #![trigger r@[i]]
                0 <= i < r@.len() ==> self@.contains_key(r@[i].0@) && self@[r@[i].0@] == r@[i].1,
            forall|key: Seq<char>| #[trigger]
                self@.contains_key(key) ==> exists|i: int|
                    0 <= i < r@.len() && #[trigger] r@[i].0@ == key,
            forall|i: int, j: int|
                0 <= i < j < r@.len() ==> #[trigger] r@[i].0@ != #[trigger] r@[j].0@,
    {
        proof {
            use_type_invariant(self);
            assert forall|i: int|
                #![trigger self.entries@[i]]
                0 <= i < self.entries@.len() implies self@.contains_key(self.entries@[i].0@)
                && self@[self.entries@[i].0@] == self.entries@[i].1 by {
                lemma_entry(self.entries@, i);
            }
            assert forall|key: Seq<char>| #[trigger] self@.contains_key(key) implies exists|i: int|
                0 <= i < self.entries@.len() && #[trigger] self.entries@[i].0@ == key by {
                let i = choose|i: int| is_entry_of(self.entries@, key, i);
                assert(self.entries@[i].0@ == key);
            }
        }
        &self.entries
    }
}

} // verus!
