use crate::function_cache::{FunctionCache, FunctionIdent};
use crate::lock::{new_shared, read_with, write_with};
use crate::module_cache::{module_key_of, ModuleCache, ModuleCacheEntry, ModuleCacheKey};
use crate::programs_cache::{ProgramsCache, ProgramsCacheEntry};
use std::sync::Arc;
use vstd::prelude::*;

verus! {

/// The shared cache facade over the module parse cache, the program cache and
/// the function cache. Cloning it yields another handle to the same storage.
/// Each cache sits behind its own reader-writer lock, and no operation holds
/// more than one lock, so other handles may change a cache between two calls:
/// the facade promises only what holds of every state that the caches can
/// reach. The caches' own types state each access exactly.
#[derive(Clone)]
#[verifier::reject_recursive_types(P)]
#[verifier::reject_recursive_types(E)]
#[verifier::reject_recursive_types(W)]
#[verifier::reject_recursive_types(D)]
pub struct QueryEngine<P, E, W, D> {
    parse_module_cache: Arc<parking_lot::RwLock<ModuleCache>>,
    programs_cache: Arc<parking_lot::RwLock<ProgramsCache<P, E, W>>>,
    function_cache: Arc<parking_lot::RwLock<FunctionCache<D>>>,
}

impl<P: Clone, E: Clone, W: Clone, D: Clone> QueryEngine<P, E, W, D> {
    /// A facade over three empty caches.
    pub fn new() -> (r: Self) {
        QueryEngine {
            parse_module_cache: new_shared(ModuleCache::new()),
            programs_cache: new_shared(ProgramsCache::new()),
            function_cache: new_shared(FunctionCache::new()),
        }
    }

    /// A copy of the module entry stored under `path`, if any. An entry found
    /// always names the key it was asked for.
    pub fn get_parse_module_cache_entry(&self, path: &ModuleCacheKey) -> (r: Option<
        ModuleCacheEntry,
    >)
        ensures
            r matches Some(e) ==> module_key_of(e@) == path@,
    {
        let lookup = |cache: &ModuleCache| -> (r: Option<ModuleCacheEntry>)
            ensures
                r matches Some(e) ==> module_key_of(e@) == path@,
            { cache.get(path) };
        read_with(&self.parse_module_cache, lookup)
    }

    /// Stores `entry` under the key derived from its path and test flag.
    pub fn insert_parse_module_cache_entry(&self, entry: ModuleCacheEntry) {
        write_with(&self.parse_module_cache, move |cache: &mut ModuleCache| { cache.insert(entry) })
    }

    /// A clone of the program entry stored under `path`, if any. An entry
    /// found always carries the path it was asked for.
    pub fn get_programs_cache_entry(&self, path: &String) -> (r: Option<
        ProgramsCacheEntry<P, E, W>,
    >)
        ensures
            r matches Some(e) ==> e.path@ == path@,
    {
        let lookup = |cache: &ProgramsCache<P, E, W>| -> (r: Option<ProgramsCacheEntry<P, E, W>>)
            ensures
                r matches Some(e) ==> e.path@ == path@,
            { cache.get(path) };
        read_with(&self.programs_cache, lookup)
    }

    /// Stores `entry` under its path, with its diagnostics.
    pub fn insert_programs_cache_entry(&self, entry: ProgramsCacheEntry<P, E, W>) {
        write_with(
            &self.programs_cache,
            move |cache: &mut ProgramsCache<P, E, W>| { cache.insert(entry) },
        )
    }

    /// Renders `sig` to its canonical text with `render`, then looks up the
    /// declaration handle stored under the identifier and that text.
    pub fn get_function<S, F: Fn(&S) -> String>(&self, render: F, ident: FunctionIdent, sig: S) -> (r:
        Option<D>)
        requires
            render.requires((&sig,)),
    {
        let text = render(&sig);
        let lookup = |cache: &FunctionCache<D>| -> (r: Option<D>) { cache.get(&ident, &text) };
        read_with(&self.function_cache, lookup)
    }

    /// Renders `sig` to its canonical text with `render`, then stores
    /// `fn_decl` under the identifier and that text.
    pub fn insert_function<S, F: Fn(&S) -> String>(
        &self,
        render: F,
        ident: FunctionIdent,
        sig: S,
        fn_decl: D,
    )
        requires
            render.requires((&sig,)),
    {
        let text = render(&sig);
        write_with(
            &self.function_cache,
            move |cache: &mut FunctionCache<D>| { cache.insert(ident, text, fn_decl) },
        )
    }
}

} // verus!
