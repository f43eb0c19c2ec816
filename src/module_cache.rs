use crate::store::{CacheKey, KeyedStore};
use vstd::prelude::*;

verus! {

/// A point in time as seconds and nanoseconds relative to the Unix epoch.
#[derive(Clone, Copy, Debug, PartialEq, Eq, Structural, Hash)]
pub struct Timestamp {
    pub secs: i64,
    pub nanos: u32,
}

/// Identifies one parse variant of a module: its path, and whether test code
/// was included.
#[derive(Debug, Clone, Hash, PartialEq, Eq)]
pub struct ModuleCacheKey {
    pub path: String,
    pub include_tests: bool,
}

impl View for ModuleCacheKey {
    type V = (Seq<char>, bool);

    open spec fn view(&self) -> (Seq<char>, bool) {
        (self.path@, self.include_tests)
    }
}

impl ModuleCacheKey {
    pub fn new(path: String, include_tests: bool) -> (r: Self)
        ensures
            r.path == path,
            r.include_tests == include_tests,
            r@ == (path@, include_tests),
    {
        Self { path, include_tests }
    }

    /// A copy of this key.
    pub fn duplicate(&self) -> (r: Self)
        ensures
            r@ == self@,
    {
        ModuleCacheKey { path: self.path.clone(), include_tests: self.include_tests }
    }
}

impl CacheKey for ModuleCacheKey {
    fn same_key(&self, other: &Self) -> (r: bool) {
        self.include_tests == other.include_tests && self.path == other.path
    }
}

/// The abstract value of a module cache entry.
pub struct ModuleEntryView {
    pub path: Seq<char>,
    pub modified_time: Option<Timestamp>,
    pub hash: u64,
    pub dependencies: Seq<Seq<char>>,
    pub include_tests: bool,
    pub version: Option<u64>,
}

/// The key under which an entry files itself: its path and test flag.
pub open spec fn module_key_of(e: ModuleEntryView) -> (Seq<char>, bool) {
    (e.path, e.include_tests)
}

/// Parse metadata of one module variant.
#[derive(Clone, Debug)]
pub struct ModuleCacheEntry {
    pub path: String,
    pub modified_time: Option<Timestamp>,
    pub hash: u64,
    pub dependencies: Vec<String>,
    pub include_tests: bool,
    pub version: Option<u64>,
}

impl View for ModuleCacheEntry {
    type V = ModuleEntryView;

    open spec fn view(&self) -> ModuleEntryView {
        ModuleEntryView {
            path: self.path@,
            modified_time: self.modified_time,
            hash: self.hash,
            dependencies: self.dependencies@.map_values(|p: String| p@),
            include_tests: self.include_tests,
            version: self.version,
        }
    }
}

impl ModuleCacheEntry {
    /// The key this entry is stored under.
    pub fn key(&self) -> (r: ModuleCacheKey)
        ensures
            r@ == module_key_of(self@),
    {
        ModuleCacheKey::new(self.path.clone(), self.include_tests)
    }

    /// A copy of this entry with the same contents.
    pub fn duplicate(&self) -> (r: Self)
        ensures
            r@ == self@,
    {
        let dependencies = self.dependencies.clone();
        proof {
            assert(dependencies@.map_values(|p: String| p@) =~= self.dependencies@.map_values(
                |p: String| p@,
            ));
        }
        ModuleCacheEntry {
            path: self.path.clone(),
            modified_time: self.modified_time,
            hash: self.hash,
            dependencies,
            include_tests: self.include_tests,
            version: self.version,
        }
    }
}

/// True when every entry is stored under the key it names itself.
pub open spec fn self_describing(m: Map<(Seq<char>, bool), ModuleEntryView>) -> bool {
    forall|k: (Seq<char>, bool)| #[trigger] m.contains_key(k) ==> module_key_of(m[k]) == k
}

/// The module parse cache: entries keyed by path and test flag, last write wins.
pub struct ModuleCache {
    store: KeyedStore<ModuleCacheKey, ModuleCacheEntry>,
}

impl View for ModuleCache {
    type V = Map<(Seq<char>, bool), ModuleEntryView>;

    closed spec fn view(&self) -> Map<(Seq<char>, bool), ModuleEntryView> {
        self.store@.map_values(|e: ModuleCacheEntry| e@)
    }
}

impl ModuleCache {
    #[verifier::type_invariant]
    closed spec fn inv(&self) -> bool {
        forall|k: (Seq<char>, bool)| #[trigger]
            self.store@.contains_key(k) ==> module_key_of(self.store@[k]@) == k
    }

    /// An empty cache.
    pub fn new() -> (r: Self)
        ensures
            r@ == Map::<(Seq<char>, bool), ModuleEntryView>::empty(),
    {
        let r = ModuleCache { store: KeyedStore::new() };
        proof {
            assert(r@ =~= Map::<(Seq<char>, bool), ModuleEntryView>::empty());
        }
        r
    }

    /// A copy of the entry stored under `key`, or `None` if there is none.
    pub fn get(&self, key: &ModuleCacheKey) -> (r: Option<ModuleCacheEntry>)
        ensures
            match r {
                Some(e) => self@.contains_key(key@) && e@ == self@[key@],
                None => !self@.contains_key(key@),
            },
            r matches Some(e) ==> module_key_of(e@) == key@,
            self_describing(self@),
    {
        proof {
            use_type_invariant(self);
        }
        match self.store.get(key) {
            Some(e) => Some(e.duplicate()),
            None => None,
        }
    }

    /// Stores `entry` under the key it names, replacing what was there.
    pub fn insert(&mut self, entry: ModuleCacheEntry)
        ensures
            final(self)@ == old(self)@.insert(module_key_of(entry@), entry@),
    {
        proof {
            use_type_invariant(&*self);
        }
        let key = entry.key();
        let ghost e = entry@;
        let mut store = KeyedStore::new();
        std::mem::swap(&mut self.store, &mut store);
        store.insert(key, entry);
        proof {
            assert(store@.map_values(|x: ModuleCacheEntry| x@) =~= old(self)@.insert(
                module_key_of(e),
                e,
            ));
        }
        self.store = store;
    }
}

impl Default for ModuleCache {
    fn default() -> (r: Self)
        ensures
            r@ == Map::<(Seq<char>, bool), ModuleEntryView>::empty(),
    {
        ModuleCache::new()
    }
}

/// The contents of a module cache that started empty and then received the
/// entries of `es` through `insert`, in that order.
pub open spec fn module_cache_after(es: Seq<ModuleEntryView>) -> Map<
    (Seq<char>, bool),
    ModuleEntryView,
>
    decreases es.len(),
{
    if es.len() == 0 {
        Map::empty()
    } else {
        module_cache_after(es.drop_last()).insert(module_key_of(es.last()), es.last())
    }
}

/// Whatever the cache held, inserting an entry and then looking up the key
/// that the entry names finds exactly that entry.
pub proof fn lemma_insert_then_get(m: Map<(Seq<char>, bool), ModuleEntryView>, e: ModuleEntryView)
    ensures
        m.insert(module_key_of(e), e).contains_key(module_key_of(e)),
        m.insert(module_key_of(e), e)[module_key_of(e)] == e,
{
}

/// A cache that started empty holds no entry under a key that none of the
/// inserted entries names.
pub proof fn lemma_never_inserted_is_absent(es: Seq<ModuleEntryView>, k: (Seq<char>, bool))
    requires
        forall|i: int| 0 <= i < es.len() ==> module_key_of(#[trigger] es[i]) != k,
    ensures
        !module_cache_after(es).contains_key(k),
    decreases es.len(),
{
    if es.len() > 0 {
        let rest = es.drop_last();
        assert forall|i: int| 0 <= i < rest.len() implies module_key_of(#[trigger] rest[i]) != k by {
            assert(rest[i] == es[i]);
        }
        lemma_never_inserted_is_absent(rest, k);
        assert(module_key_of(es[es.len() - 1]) != k);
    }
}

/// Two inserts of entries that name the same key leave the cache as the later
/// insert alone would: only the most recent entry is retrievable.
pub proof fn lemma_last_write_wins(
    m: Map<(Seq<char>, bool), ModuleEntryView>,
    e1: ModuleEntryView,
    e2: ModuleEntryView,
)
    requires
        module_key_of(e1) == module_key_of(e2),
    ensures
        m.insert(module_key_of(e1), e1).insert(module_key_of(e2), e2) == m.insert(
            module_key_of(e2),
            e2,
        ),
{
    assert(m.insert(module_key_of(e1), e1).insert(module_key_of(e2), e2) =~= m.insert(
        module_key_of(e2),
        e2,
    ));
}

/// Entries that name different keys, such as the same path with and without
/// tests, are retrievable independently of each other.
pub proof fn lemma_distinct_keys_independent(
    m: Map<(Seq<char>, bool), ModuleEntryView>,
    e1: ModuleEntryView,
    e2: ModuleEntryView,
)
    requires
        module_key_of(e1) != module_key_of(e2),
    ensures
        m.insert(module_key_of(e1), e1).insert(module_key_of(e2), e2)[module_key_of(e1)] == e1,
        m.insert(module_key_of(e1), e1).insert(module_key_of(e2), e2)[module_key_of(e2)] == e2,
{
}

} // verus!
