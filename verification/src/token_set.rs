//! A finite set of identifiers, kept as a vector without repeats.

use crate::seq_facts::{lemma_distinct_len, lemma_push_fresh, lemma_remove_at};
use vstd::prelude::*;

verus! {

/// The views of the strings of `items`, in order.
pub open spec fn names_of(items: Seq<String>) -> Seq<Seq<char>> {
    items.map_values(|s: String| s@)
}

/// A set of token identifiers. Its view is the set of the identifiers' views.
#[derive(Debug)]
pub struct TokenSet {
    items: Vec<String>,
}

impl View for TokenSet {
    type V = Set<Seq<char>>;

    closed spec fn view(&self) -> Set<Seq<char>> {
        names_of(self.items@).to_set()
    }
}

impl TokenSet {
    #[verifier::type_invariant]
    spec fn distinct(self) -> bool {
        names_of(self.items@).no_duplicates()
    }

    /// The empty set.
    pub fn new() -> (set: TokenSet)
        ensures
            set@ == Set::<Seq<char>>::empty(),
    {
        TokenSet { items: Vec::new() }
    }

    /// Number of identifiers in the set.
    pub fn len(&self) -> (n: usize)
        ensures
            self@.finite(),
            n == self@.len(),
    {
        proof {
            use_type_invariant(self);
            lemma_distinct_len(names_of(self.items@));
        }
        self.items.len()
    }

    /// Whether the set holds no identifier.
    pub fn is_empty(&self) -> (empty: bool)
        ensures
            empty == (self@ == Set::<Seq<char>>::empty()),
    {
        proof {
            use_type_invariant(self);
            lemma_distinct_len(names_of(self.items@));
            if self.items@.len() == 0 {
                assert(self@ =~= Set::<Seq<char>>::empty());
            }
        }
        self.items.len() == 0
    }

    fn position(&self, id: &String) -> (found: Option<usize>)
        ensures
            match found {
                Some(i) => i < self.items@.len() && names_of(self.items@)[i as int] == id@,
                None => !names_of(self.items@).contains(id@),
            },
    {
        let mut i: usize = 0;
        while i < self.items.len()
            invariant
                i <= self.items@.len(),
                forall|j: int| 0 <= j < i ==> names_of(self.items@)[j] != id@,
            decreases self.items@.len() - i,
        {
            if self.items[i] == *id {
                return Some(i);
            }
            i += 1;
        }
        None
    }

    /// Whether `id` is in the set.
    pub fn contains(&self, id: &String) -> (present: bool)
        ensures
            present == self@.contains(id@),
    {
        self.position(id).is_some()
    }

    /// Adds `id`; returns whether it was new.
    pub fn insert(&mut self, id: String) -> (added: bool)
        ensures
            final(self)@ == old(self)@.insert(id@),
            added == !old(self)@.contains(id@),
    {
        proof {
            use_type_invariant(&*self);
        }
        match self.position(&id) {
            Some(_) => {
                false
            },
            None => {
                let mut items: Vec<String> = Vec::new();
                std::mem::swap(&mut items, &mut self.items);
                proof {
                    lemma_push_fresh(names_of(items@), id@);
                    assert(names_of(items@.push(id)) =~= names_of(items@).push(id@));
                }
                items.push(id);
                self.items = items;
                true
            },
        }
    }

    /// Removes `id`; returns whether it was present.
    pub fn remove(&mut self, id: &String) -> (removed: bool)
        ensures
            final(self)@ == old(self)@.remove(id@),
            removed == old(self)@.contains(id@),
    {
        proof {
            use_type_invariant(&*self);
        }
        match self.position(id) {
            Some(i) => {
                let mut items: Vec<String> = Vec::new();
                std::mem::swap(&mut items, &mut self.items);
                proof {
                    lemma_remove_at(names_of(items@), i as int);
                    assert(names_of(items@.remove(i as int)) =~= names_of(items@).remove(i as int));
                }
                items.remove(i);
                self.items = items;
                true
            },
            None => {
                false
            },
        }
    }

    /// The identifiers of the set, each once.
    pub fn to_vec(&self) -> (ids: Vec<String>)
        ensures
            names_of(ids@).no_duplicates(),
            names_of(ids@).to_set() == self@,
    {
        proof {
            use_type_invariant(self);
        }
        let mut ids: Vec<String> = Vec::new();
        let mut i: usize = 0;
        while i < self.items.len()
            invariant
                i <= self.items@.len(),
                ids@.len() == i,
                forall|j: int| 0 <= j < i ==> ids@[j]@ == self.items@[j]@,
            decreases self.items@.len() - i,
        {
            ids.push(self.items[i].clone());
            i += 1;
        }
        assert(names_of(ids@) =~= names_of(self.items@));
        ids
    }

    /// A set with the same identifiers.
    pub fn duplicate(&self) -> (copy: TokenSet)
        ensures
            copy@ == self@,
    {
        proof {
            use_type_invariant(self);
        }
        let items = self.to_vec();
        TokenSet { items }
    }
}

} // verus!
