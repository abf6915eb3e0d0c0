//! A finite map keyed by identifiers, kept as a vector of entries with
//! pairwise different keys.

use crate::seq_facts::{lemma_distinct_len, lemma_push_fresh, lemma_remove_at};
use crate::token_set::names_of;
use vstd::prelude::*;

verus! {

#[derive(Debug)]
struct Entry<V> {
    key: String,
    value: V,
}

spec fn keys_of<V>(entries: Seq<Entry<V>>) -> Seq<Seq<char>> {
    entries.map_values(|e: Entry<V>| e.key@)
}

spec fn map_of<V>(entries: Seq<Entry<V>>) -> Map<Seq<char>, V> {
    Map::new(
        |k: Seq<char>| keys_of(entries).contains(k),
        |k: Seq<char>| entries[keys_of(entries).index_of(k)].value,
    )
}

proof fn lemma_map_of_at<V>(entries: Seq<Entry<V>>, i: int)
    requires
        keys_of(entries).no_duplicates(),
        0 <= i < entries.len(),
    ensures
        map_of(entries).contains_key(entries[i].key@),
        map_of(entries)[entries[i].key@] == entries[i].value,
{
    let keys = keys_of(entries);
    assert(keys[i] == entries[i].key@);
    let j = keys.index_of(entries[i].key@);
    assert(0 <= j < keys.len() && keys[j] == keys[i]);
}

proof fn lemma_map_of_push<V>(entries: Seq<Entry<V>>, e: Entry<V>)
    requires
        keys_of(entries).no_duplicates(),
        !keys_of(entries).contains(e.key@),
    ensures
        keys_of(entries.push(e)) == keys_of(entries).push(e.key@),
        keys_of(entries.push(e)).no_duplicates(),
        map_of(entries.push(e)) == map_of(entries).insert(e.key@, e.value),
{
    let after = entries.push(e);
    assert(keys_of(after) =~= keys_of(entries).push(e.key@));
    lemma_push_fresh(keys_of(entries), e.key@);
    assert forall|k: Seq<char>|
        map_of(after).contains_key(k) <==> map_of(entries).insert(e.key@, e.value).contains_key(
            k,
        ) by {
        assert(keys_of(after).to_set().contains(k) <==> keys_of(entries).to_set().insert(
            e.key@,
        ).contains(k));
    }
    assert forall|k: Seq<char>| map_of(after).contains_key(k) implies map_of(after)[k] == map_of(
        entries,
    ).insert(e.key@, e.value)[k] by {
        let j = keys_of(after).index_of(k);
        lemma_map_of_at(after, j);
        if j < entries.len() {
            assert(keys_of(entries)[j] == k);
            lemma_map_of_at(entries, j);
        }
    }
    assert(map_of(after) =~= map_of(entries).insert(e.key@, e.value));
}

proof fn lemma_map_of_remove<V>(entries: Seq<Entry<V>>, i: int)
    requires
        keys_of(entries).no_duplicates(),
        0 <= i < entries.len(),
    ensures
        keys_of(entries.remove(i)) == keys_of(entries).remove(i),
        keys_of(entries.remove(i)).no_duplicates(),
        !keys_of(entries.remove(i)).contains(entries[i].key@),
        map_of(entries.remove(i)) == map_of(entries).remove(entries[i].key@),
{
    let after = entries.remove(i);
    let gone = entries[i].key@;
    assert(keys_of(after) =~= keys_of(entries).remove(i));
    assert(keys_of(entries)[i] == gone);
    lemma_remove_at(keys_of(entries), i);
    assert forall|k: Seq<char>|
        map_of(after).contains_key(k) <==> map_of(entries).remove(gone).contains_key(k) by {
        assert(keys_of(after).to_set().contains(k) <==> keys_of(entries).to_set().remove(
            gone,
        ).contains(k));
    }
    assert forall|k: Seq<char>| map_of(after).contains_key(k) implies map_of(after)[k] == map_of(
        entries,
    ).remove(gone)[k] by {
        let j = keys_of(after).index_of(k);
        lemma_map_of_at(after, j);
        let j0 = if j < i {
            j
        } else {
            j + 1
        };
        assert(after[j] == entries[j0]);
        lemma_map_of_at(entries, j0);
    }
    assert(map_of(after) =~= map_of(entries).remove(gone));
}

/// A map from identifiers to values of `V`. Its view maps the identifiers'
/// views to the values.
#[derive(Debug)]
pub struct StringMap<V> {
    entries: Vec<Entry<V>>,
}

impl<V> View for StringMap<V> {
    type V = Map<Seq<char>, V>;

    closed spec fn view(&self) -> Map<Seq<char>, V> {
        map_of(self.entries@)
    }
}

impl<V> StringMap<V> {
    #[verifier::type_invariant]
    spec fn distinct(self) -> bool {
        keys_of(self.entries@).no_duplicates()
    }

    /// The keys in the order in which the map holds them: each key of the
    /// view once.
    pub closed spec fn key_seq(&self) -> Seq<Seq<char>> {
        keys_of(self.entries@)
    }

    /// The empty map.
    pub fn new() -> (map: StringMap<V>)
        ensures
            map@ == Map::<Seq<char>, V>::empty(),
            map.key_seq() == Seq::<Seq<char>>::empty(),
    {
        let map = StringMap { entries: Vec::new() };
        assert(map_of(map.entries@) =~= Map::<Seq<char>, V>::empty());
        assert(keys_of(map.entries@) =~= Seq::<Seq<char>>::empty());
        map
    }

    /// Number of keys.
    pub fn len(&self) -> (n: usize)
        ensures
            self@.dom().finite(),
            n == self@.len(),
            n == self.key_seq().len(),
    {
        proof {
            use_type_invariant(self);
            lemma_distinct_len(keys_of(self.entries@));
            assert(self@.dom() =~= keys_of(self.entries@).to_set());
        }
        self.entries.len()
    }

    /// Whether the map holds no key.
    pub fn is_empty(&self) -> (empty: bool)
        ensures
            empty == (self@ == Map::<Seq<char>, V>::empty()),
    {
        proof {
            use_type_invariant(self);
            if self.entries@.len() == 0 {
                assert(self@ =~= Map::<Seq<char>, V>::empty());
            } else {
                lemma_map_of_at(self.entries@, 0);
            }
        }
        self.entries.len() == 0
    }

    fn position(&self, key: &String) -> (found: Option<usize>)
        ensures
            match found {
                Some(i) => i < self.entries@.len() && self.entries@[i as int].key@ == key@,
                None => !keys_of(self.entries@).contains(key@),
            },
    {
        let mut i: usize = 0;
        while i < self.entries.len()
            invariant
                i <= self.entries@.len(),
                forall|j: int| 0 <= j < i ==> keys_of(self.entries@)[j] != key@,
            decreases self.entries@.len() - i,
        {
            if self.entries[i].key == *key {
                return Some(i);
            }
            i += 1;
        }
        None
    }

    /// Whether `key` is in the map.
    pub fn contains_key(&self, key: &String) -> (present: bool)
        ensures
            present == self@.contains_key(key@),
    {
        proof {
            use_type_invariant(self);
        }
        match self.position(key) {
            Some(i) => {
                proof {
                    lemma_map_of_at(self.entries@, i as int);
                }
                true
            },
            None => false,
        }
    }

    /// The value of `key`, if the map holds it.
    pub fn get(&self, key: &String) -> (value: Option<&V>)
        ensures
            match value {
                Some(v) => self@.contains_key(key@) && *v == self@[key@],
                None => !self@.contains_key(key@),
            },
    {
        proof {
            use_type_invariant(self);
        }
        match self.position(key) {
            Some(i) => {
                proof {
                    lemma_map_of_at(self.entries@, i as int);
                }
                Some(&self.entries[i].value)
            },
            None => None,
        }
    }

    /// Sets the value of `key`; returns the value it had before, if any.
    pub fn insert(&mut self, key: String, value: V) -> (previous: Option<V>)
        ensures
            final(self)@ == old(self)@.insert(key@, value),
            match previous {
                Some(v) => old(self)@.contains_key(key@) && v == old(self)@[key@],
                None => !old(self)@.contains_key(key@),
            },
    {
        proof {
            use_type_invariant(&*self);
        }
        let found = self.position(&key);
        let mut entries: Vec<Entry<V>> = Vec::new();
        std::mem::swap(&mut entries, &mut self.entries);
        let ghost before = entries@;
        let previous = match found {
            Some(i) => {
                proof {
                    lemma_map_of_at(before, i as int);
                    lemma_map_of_remove(before, i as int);
                }
                let gone = entries.remove(i);
                Some(gone.value)
            },
            None => None,
        };
        let ghost between = entries@;
        let entry = Entry { key, value };
        proof {
            lemma_map_of_push(between, entry);
            assert(map_of(between).insert(key@, value) =~= map_of(before).insert(key@, value));
        }
        entries.push(entry);
        self.entries = entries;
        previous
    }

    /// Takes `key` out of the map; returns the value it had, if any.
    pub fn remove(&mut self, key: &String) -> (previous: Option<V>)
        ensures
            final(self)@ == old(self)@.remove(key@),
            match previous {
                Some(v) => old(self)@.contains_key(key@) && v == old(self)@[key@],
                None => !old(self)@.contains_key(key@),
            },
    {
        proof {
            use_type_invariant(&*self);
        }
        match self.position(key) {
            Some(i) => {
                let mut entries: Vec<Entry<V>> = Vec::new();
                std::mem::swap(&mut entries, &mut self.entries);
                proof {
                    lemma_map_of_at(entries@, i as int);
                    lemma_map_of_remove(entries@, i as int);
                }
                let gone = entries.remove(i);
                self.entries = entries;
                Some(gone.value)
            },
            None => {
                assert(self@.remove(key@) =~= self@);
                None
            },
        }
    }

    /// The keys, in the order of `key_seq`.
    pub fn keys(&self) -> (keys: Vec<String>)
        ensures
            names_of(keys@) == self.key_seq(),
            self.key_seq().no_duplicates(),
            self.key_seq().to_set() == self@.dom(),
    {
        proof {
            use_type_invariant(self);
        }
        let mut keys: Vec<String> = Vec::new();
        let mut i: usize = 0;
        while i < self.entries.len()
            invariant
                i <= self.entries@.len(),
                keys@.len() == i,
                forall|j: int| 0 <= j < i ==> keys@[j]@ == self.entries@[j].key@,
            decreases self.entries@.len() - i,
        {
            keys.push(self.entries[i].key.clone());
            i += 1;
        }
        assert(names_of(keys@) =~= keys_of(self.entries@));
        assert(keys_of(self.entries@).to_set() =~= self@.dom());
        keys
    }
}

impl<V: Copy> StringMap<V> {
    /// A map with the same keys and values.
    pub fn duplicate(&self) -> (copy: StringMap<V>)
        ensures
            copy@ == self@,
            copy.key_seq() == self.key_seq(),
    {
        proof {
            use_type_invariant(self);
        }
        let mut entries: Vec<Entry<V>> = Vec::new();
        let mut i: usize = 0;
        while i < self.entries.len()
            invariant
                i <= self.entries@.len(),
                entries@.len() == i,
                forall|j: int|
                    0 <= j < i ==> entries@[j].key@ == self.entries@[j].key@ && entries@[j].value
                        == self.entries@[j].value,
            decreases self.entries@.len() - i,
        {
            let key = self.entries[i].key.clone();
            let value = self.entries[i].value;
            entries.push(Entry { key, value });
            i += 1;
        }
        proof {
            assert(keys_of(entries@) =~= keys_of(self.entries@));
            assert forall|k: Seq<char>| map_of(entries@).contains_key(k) implies map_of(
                entries@,
            )[k] == map_of(self.entries@)[k] by {
                let j = keys_of(entries@).index_of(k);
                lemma_map_of_at(entries@, j);
                lemma_map_of_at(self.entries@, j);
            }
            assert(map_of(entries@) =~= map_of(self.entries@));
        }
        StringMap { entries }
    }
}

} // verus!
