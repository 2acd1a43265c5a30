//! The version cache: for each object that the operator wrote or handled, the
//! resource version and generation it last saw, by namespace and name.

use vstd::prelude::*;
use vstd::std_specs::cmp::PartialEqSpecImpl;
use crate::assoc;

verus! {

/// The key of an object within its kind: namespace and name.
#[derive(Debug, Hash)]
pub struct NamespacedName {
    pub namespace: String,
    pub name: String,
}

/// What a [`NamespacedName`] holds.
pub struct NamespacedNameView {
    pub namespace: Seq<char>,
    pub name: Seq<char>,
}

impl DeepView for NamespacedName {
    type V = NamespacedNameView;

    open spec fn deep_view(&self) -> NamespacedNameView {
        NamespacedNameView { namespace: self.namespace@, name: self.name@ }
    }
}

impl View for NamespacedName {
    type V = NamespacedNameView;

    open spec fn view(&self) -> NamespacedNameView {
        self.deep_view()
    }
}

impl Clone for NamespacedName {
    fn clone(&self) -> (r: Self)
        ensures
            r@ == self@,
    {
        NamespacedName { namespace: self.namespace.clone(), name: self.name.clone() }
    }
}

impl PartialEq for NamespacedName {
    fn eq(&self, other: &Self) -> (r: bool) {
        self.namespace == other.namespace && self.name == other.name
    }
}

impl Eq for NamespacedName {

}

impl PartialEqSpecImpl for NamespacedName {
    open spec fn obeys_eq_spec() -> bool {
        true
    }

    open spec fn eq_spec(&self, other: &Self) -> bool {
        self.namespace@ == other.namespace@ && self.name@ == other.name@
    }
}

impl NamespacedName {
    /// The key of the object called `name` in `namespace`.
    pub fn new(name: &str, namespace: &str) -> (r: Self)
        ensures
            r@ == (NamespacedNameView { namespace: namespace@, name: name@ }),
    {
        NamespacedName { name: String::from_str(name), namespace: String::from_str(namespace) }
    }
}

/// What the cache remembers of an object: the resource version of the last
/// write or handled event and, for kinds that track one, its generation.
#[derive(Debug)]
pub struct CacheEntry {
    pub resource_version: String,
    pub generation: Option<u64>,
}

/// What a [`CacheEntry`] holds.
pub struct CacheEntryView {
    pub resource_version: Seq<char>,
    pub generation: Option<u64>,
}

impl DeepView for CacheEntry {
    type V = CacheEntryView;

    open spec fn deep_view(&self) -> CacheEntryView {
        CacheEntryView { resource_version: self.resource_version@, generation: self.generation }
    }
}

impl View for CacheEntry {
    type V = CacheEntryView;

    open spec fn view(&self) -> CacheEntryView {
        self.deep_view()
    }
}

impl Clone for CacheEntry {
    fn clone(&self) -> (r: Self)
        ensures
            r@ == self@,
    {
        CacheEntry { resource_version: self.resource_version.clone(), generation: self.generation }
    }
}

impl CacheEntry {
    /// An entry with a generation.
    pub fn new(resource_version: &str, generation: u64) -> (r: Self)
        ensures
            r@ == (CacheEntryView {
                resource_version: resource_version@,
                generation: Some(generation),
            }),
    {
        CacheEntry {
            resource_version: String::from_str(resource_version),
            generation: Some(generation),
        }
    }

    /// An entry for a kind whose generation is not tracked.
    pub fn new_no_generation(resource_version: &str) -> (r: Self)
        ensures
            r@ == (CacheEntryView { resource_version: resource_version@, generation: None }),
    {
        CacheEntry { resource_version: String::from_str(resource_version), generation: None }
    }
}

/// The version cache. Its view is the map from keys to entries.
#[derive(Debug)]
pub struct VersionCache {
    entries: Vec<(NamespacedName, CacheEntry)>,
}

impl View for VersionCache {
    type V = Map<NamespacedNameView, CacheEntryView>;

    closed spec fn view(&self) -> Map<NamespacedNameView, CacheEntryView> {
        assoc::to_map(self.entries.deep_view())
    }
}

/// The empty cache, as a process holds it when it starts.
pub fn new_cache() -> (r: VersionCache)
    ensures
        r@ == Map::<NamespacedNameView, CacheEntryView>::empty(),
{
    VersionCache::new()
}

impl VersionCache {
    #[verifier::type_invariant]
    spec fn distinct(self) -> bool {
        assoc::keys_distinct(self.entries.deep_view())
    }

    /// The empty cache.
    pub fn new() -> (r: Self)
        ensures
            r@ == Map::<NamespacedNameView, CacheEntryView>::empty(),
    {
        let r = VersionCache { entries: Vec::new() };
        proof {
            assoc::lemma_empty::<NamespacedNameView, CacheEntryView>();
            assert(r.entries.deep_view() =~= Seq::empty());
        }
        r
    }

    /// The number of objects that the cache knows.
    pub fn len(&self) -> (n: usize)
        ensures
            self@.dom().finite(),
            n == self@.len(),
    {
        proof {
            use_type_invariant(self);
            assoc::lemma_len(self.entries.deep_view());
        }
        self.entries.len()
    }

    fn position(&self, key: &NamespacedName) -> (r: Option<usize>)
        ensures
            match r {
                Some(i) => i < self.entries.len() && self.entries[i as int].0@ == key@,
                None => !self@.dom().contains(key@),
            },
    {
        let mut i: usize = 0;
        while i < self.entries.len()
            invariant
                i <= self.entries.len(),
                forall|j: int| 0 <= j < i ==> self.entries[j].0@ != key@,
            decreases self.entries.len() - i,
        {
            if self.entries[i].0 == *key {
                return Some(i);
            }
            i += 1;
        }
        proof {
            let s = self.entries.deep_view();
            assert forall|j: int| 0 <= j < s.len() implies (#[trigger] s[j]).0 != key@ by {
                assert(s[j].0 == self.entries[j].0@);
            }
            assoc::lemma_absent(s, key@);
        }
        None
    }

    /// The entry of `key`, if the cache has one.
    pub fn get(&self, key: &NamespacedName) -> (r: Option<&CacheEntry>)
        ensures
            match r {
                Some(e) => self@.dom().contains(key@) && self@[key@] == e@,
                None => !self@.dom().contains(key@),
            },
    {
        match self.position(key) {
            Some(i) => {
                proof {
                    use_type_invariant(self);
                    let s = self.entries.deep_view();
                    assert(s[i as int] == (self.entries[i as int].0@, self.entries[i as int].1@));
                    assoc::lemma_entry(s, i as int);
                }
                Some(&self.entries[i].1)
            },
            None => None,
        }
    }

    fn copy_entries(&self) -> (r: Vec<(NamespacedName, CacheEntry)>)
        ensures
            r.deep_view() == self.entries.deep_view(),
    {
        let mut out: Vec<(NamespacedName, CacheEntry)> = Vec::new();
        let mut i: usize = 0;
        while i < self.entries.len()
            invariant
                i <= self.entries.len(),
                out.len() == i,
                forall|j: int|
                    0 <= j < i ==> out[j].0@ == self.entries[j].0@ && out[j].1@
                        == self.entries[j].1@,
            decreases self.entries.len() - i,
        {
            out.push((self.entries[i].0.clone(), self.entries[i].1.clone()));
            i += 1;
        }
        assert(out.deep_view() =~= self.entries.deep_view());
        out
    }

    /// Records `entry` as what is known of `key`, in place of any earlier
    /// entry for it. Other keys keep their entries.
    pub fn insert(&mut self, key: NamespacedName, entry: CacheEntry)
        ensures
            final(self)@ == old(self)@.insert(key@, entry@),
    {
        proof {
            use_type_invariant(&*self);
        }
        let ghost before = self.entries.deep_view();
        let ghost k = key@;
        let ghost e = entry@;
        let found = self.position(&key);
        let mut entries = self.copy_entries();
        assert(entries.len() == entries.deep_view().len());
        assert(self.entries.len() == before.len());
        match found {
            Some(i) => {
                entries.set(i, (key, entry));
                proof {
                    assert(before[i as int].0 == k);
                    assoc::lemma_update(before, i as int, k, e);
                    assert(entries.deep_view() =~= before.update(i as int, (k, e)));
                }
            },
            None => {
                entries.push((key, entry));
                proof {
                    assert(!assoc::has_key(before, k));
                    assoc::lemma_push(before, k, e);
                    assert(entries.deep_view() =~= before.push((k, e)));
                }
            },
        }
        self.entries = entries;
    }
}

} // verus!
