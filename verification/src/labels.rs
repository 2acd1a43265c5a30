//! String-to-string maps as Kubernetes objects carry them for labels,
//! annotations and selectors.

use vstd::prelude::*;
use crate::assoc;
use crate::text::str_eq;

verus! {

/// A finite map from strings to strings, kept as a list of pairs in which no
/// key occurs twice. Its view is the map itself.
#[derive(Debug)]
pub struct Labels {
    entries: Vec<(String, String)>,
}

impl DeepView for Labels {
    type V = Map<Seq<char>, Seq<char>>;

    closed spec fn deep_view(&self) -> Map<Seq<char>, Seq<char>> {
        assoc::to_map(self.entries.deep_view())
    }
}

impl View for Labels {
    type V = Map<Seq<char>, Seq<char>>;

    closed spec fn view(&self) -> Map<Seq<char>, Seq<char>> {
        self.deep_view()
    }
}

impl Labels {
    #[verifier::type_invariant]
    spec fn distinct(self) -> bool {
        assoc::keys_distinct(self.entries.deep_view())
    }

    /// The view and the deep view are the same map.
    pub broadcast proof fn lemma_view_is_deep_view(self)
        ensures
            #[trigger] self.deep_view() == self@,
    {
    }

    /// The empty map.
    pub fn new() -> (r: Self)
        ensures
            r@ == Map::<Seq<char>, Seq<char>>::empty(),
    {
        let r = Labels { entries: Vec::new() };
        proof {
            assoc::lemma_empty::<Seq<char>, Seq<char>>();
            assert(r.entries.deep_view() =~= Seq::empty());
        }
        r
    }

    /// The map with the one entry `key -> value`.
    pub fn single(key: &str, value: &str) -> (r: Self)
        ensures
            r@ == Map::<Seq<char>, Seq<char>>::empty().insert(key@, value@),
    {
        let mut r = Self::new();
        r.insert(key, value);
        r
    }

    /// The number of entries.
    pub fn len(&self) -> (n: usize)
        ensures
            n == self@.len(),
            self@.dom().finite(),
    {
        proof {
            use_type_invariant(self);
            assoc::lemma_len(self.entries.deep_view());
        }
        self.entries.len()
    }

    fn position(&self, key: &str) -> (r: Option<usize>)
        ensures
            match r {
                Some(i) => i < self.entries.len() && self.entries[i as int].0@ == key@,
                None => !self@.dom().contains(key@),
            },
    {
        let mut i: usize = 0;
        while i < self.entries.len()
            invariant
                i <= self.entries.len(),
                forall|j: int| 0 <= j < i ==> self.entries[j].0@ != key@,
            decreases self.entries.len() - i,
        {
            if str_eq(self.entries[i].0.as_str(), key) {
                return Some(i);
            }
            i += 1;
        }
        proof {
            let s = self.entries.deep_view();
            assert forall|j: int| 0 <= j < s.len() implies (#[trigger] s[j]).0 != key@ by {
                assert(s[j].0 == self.entries[j].0@);
            }
            assoc::lemma_absent(s, key@);
        }
        None
    }

    /// The value stored under `key`, if there is one.
    pub fn get(&self, key: &str) -> (r: Option<&String>)
        ensures
            match r {
                Some(v) => self@.dom().contains(key@) && self@[key@] == v@,
                None => !self@.dom().contains(key@),
            },
    {
        match self.position(key) {
            Some(i) => {
                proof {
                    use_type_invariant(self);
                    let s = self.entries.deep_view();
                    assert(s[i as int] == (self.entries[i as int].0@, self.entries[i as int].1@));
                    assoc::lemma_entry(s, i as int);
                }
                Some(&self.entries[i].1)
            },
            None => None,
        }
    }

    /// Whether `key` has an entry.
    pub fn contains_key(&self, key: &str) -> (r: bool)
        ensures
            r == self@.dom().contains(key@),
    {
        self.get(key).is_some()
    }

    /// Stores `value` under `key`, replacing what was stored there.
    pub fn insert(&mut self, key: &str, value: &str)
        ensures
            final(self)@ == old(self)@.insert(key@, value@),
    {
        proof {
            use_type_invariant(&*self);
        }
        let ghost before = self.entries.deep_view();
        let found = self.position(key);
        let mut entries = self.copy_entries();
        let pair = (String::from_str(key), String::from_str(value));
        match found {
            Some(i) => {
                entries.set(i, pair);
                proof {
                    assert(before[i as int].0 == key@);
                    assoc::lemma_update(before, i as int, key@, value@);
                    assert(entries.deep_view() =~= before.update(i as int, (key@, value@)));
                }
            },
            None => {
                entries.push(pair);
                proof {
                    assert(!assoc::has_key(before, key@));
                    assoc::lemma_push(before, key@, value@);
                    assert(entries.deep_view() =~= before.push((key@, value@)));
                }
            },
        }
        self.entries = entries;
    }

    fn copy_entries(&self) -> (r: Vec<(String, String)>)
        ensures
            r.deep_view() == self.entries.deep_view(),
    {
        let mut out: Vec<(String, String)> = Vec::new();
        let mut i: usize = 0;
        while i < self.entries.len()
            invariant
                i <= self.entries.len(),
                out.len() == i,
                forall|j: int| 0 <= j < i ==> out[j].0@ == self.entries[j].0@ && out[j].1@ == self.entries[j].1@,
            decreases self.entries.len() - i,
        {
            out.push((self.entries[i].0.clone(), self.entries[i].1.clone()));
            i += 1;
        }
        assert(out.deep_view() =~= self.entries.deep_view());
        out
    }

    /// The entries as a list of pairs, each key once.
    pub fn to_pairs(&self) -> (r: Vec<(String, String)>)
        ensures
            assoc::keys_distinct(r.deep_view()),
            assoc::to_map(r.deep_view()) == self@,
    {
        proof {
            use_type_invariant(self);
        }
        self.copy_entries()
    }
}

impl Clone for Labels {
    fn clone(&self) -> (r: Self)
        ensures
            r@ == self@,
    {
        proof {
            use_type_invariant(self);
        }
        let pairs = self.copy_entries();
        Labels { entries: pairs }
    }
}

} // verus!
