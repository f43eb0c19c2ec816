use crate::store::{CacheKey, KeyedStore};
use vstd::prelude::*;

verus! {

impl CacheKey for String {
    fn same_key(&self, other: &Self) -> (r: bool) {
        *self == *other
    }
}

/// A compiled program tree for one source path, with the errors and warnings
/// that its compilation produced.
#[derive(Debug)]
pub struct ProgramsCacheEntry<P, E, W> {
    pub path: String,
    pub programs: P,
    pub handler_data: (Vec<E>, Vec<W>),
}

/// True when `b` is a clone of `a`: the same path, a clone of the programs,
/// and element by element clones of both diagnostic lists.
pub open spec fn entry_cloned<P: Clone, E: Clone, W: Clone>(
    a: ProgramsCacheEntry<P, E, W>,
    b: ProgramsCacheEntry<P, E, W>,
) -> bool {
    &&& b.path@ == a.path@
    &&& cloned(a.programs, b.programs)
    &&& b.handler_data.0@.len() == a.handler_data.0@.len()
    &&& forall|i: int|
        0 <= i < a.handler_data.0@.len() ==> cloned(
            a.handler_data.0@[i],
            #[trigger] b.handler_data.0@[i],
        )
    &&& b.handler_data.1@.len() == a.handler_data.1@.len()
    &&& forall|i: int|
        0 <= i < a.handler_data.1@.len() ==> cloned(
            a.handler_data.1@[i],
            #[trigger] b.handler_data.1@[i],
        )
}

impl<P: Clone, E: Clone, W: Clone> ProgramsCacheEntry<P, E, W> {
    /// A clone of this entry, diagnostics included.
    pub fn duplicate(&self) -> (r: Self)
        ensures
            entry_cloned(*self, r),
    {
        ProgramsCacheEntry {
            path: self.path.clone(),
            programs: self.programs.clone(),
            handler_data: (self.handler_data.0.clone(), self.handler_data.1.clone()),
        }
    }
}

/// The program cache: compiled programs keyed by source path, last write wins.
pub struct ProgramsCache<P, E, W> {
    store: KeyedStore<String, ProgramsCacheEntry<P, E, W>>,
}

impl<P, E, W> View for ProgramsCache<P, E, W> {
    type V = Map<Seq<char>, ProgramsCacheEntry<P, E, W>>;

    closed spec fn view(&self) -> Map<Seq<char>, ProgramsCacheEntry<P, E, W>> {
        self.store@
    }
}

impl<P, E, W> ProgramsCache<P, E, W> {
    #[verifier::type_invariant]
    closed spec fn inv(&self) -> bool {
        forall|k: Seq<char>| #[trigger] self.store@.contains_key(k) ==> self.store@[k].path@ == k
    }

    /// An empty cache.
    pub fn new() -> (r: Self)
        ensures
            r@ == Map::<Seq<char>, ProgramsCacheEntry<P, E, W>>::empty(),
    {
        ProgramsCache { store: KeyedStore::new() }
    }

    /// Stores `entry` under its path, replacing what was there.
    pub fn insert(&mut self, entry: ProgramsCacheEntry<P, E, W>)
        ensures
            final(self)@ == old(self)@.insert(entry.path@, entry),
    {
        proof {
            use_type_invariant(&*self);
        }
        let key = entry.path.clone();
        let mut store = KeyedStore::new();
        std::mem::swap(&mut self.store, &mut store);
        store.insert(key, entry);
        self.store = store;
    }
}

impl<P: Clone, E: Clone, W: Clone> ProgramsCache<P, E, W> {
    /// A clone of the entry stored under `path`, or `None` if there is none.
    pub fn get(&self, path: &String) -> (r: Option<ProgramsCacheEntry<P, E, W>>)
        ensures
            match r {
                Some(e) => self@.contains_key(path@) && entry_cloned(self@[path@], e),
                None => !self@.contains_key(path@),
            },
            r matches Some(e) ==> e.path@ == path@,
    {
        proof {
            use_type_invariant(self);
        }
        match self.store.get(path) {
            Some(e) => Some(e.duplicate()),
            None => None,
        }
    }
}

impl<P, E, W> Default for ProgramsCache<P, E, W> {
    fn default() -> (r: Self)
        ensures
            r@ == Map::<Seq<char>, ProgramsCacheEntry<P, E, W>>::empty(),
    {
        ProgramsCache::new()
    }
}

/// Inserting an entry and then looking up its path finds that entry, whose
/// clone carries the same programs and exactly the same diagnostics.
pub proof fn lemma_programs_round_trip<P, E, W>(
    m: Map<Seq<char>, ProgramsCacheEntry<P, E, W>>,
    e: ProgramsCacheEntry<P, E, W>,
)
    ensures
        m.insert(e.path@, e).contains_key(e.path@),
        m.insert(e.path@, e)[e.path@] == e,
{
}

} // verus!
