use crate::store::{CacheKey, KeyedStore};
use vstd::prelude::*;

verus! {

/// A function identifier that is unique per declaration site: its name and
/// the span it was declared at.
#[derive(Debug, Clone, Hash, PartialEq, Eq)]
pub struct FunctionIdent {
    pub name: String,
    pub span_start: usize,
    pub span_end: usize,
}

impl View for FunctionIdent {
    type V = (Seq<char>, usize, usize);

    open spec fn view(&self) -> (Seq<char>, usize, usize) {
        (self.name@, self.span_start, self.span_end)
    }
}

impl FunctionIdent {
    /// A copy of this identifier.
    pub fn duplicate(&self) -> (r: Self)
        ensures
            r@ == self@,
    {
        FunctionIdent { name: self.name.clone(), span_start: self.span_start, span_end: self.span_end }
    }
}

/// The abstract key of the function cache: identifier and canonical signature text.
pub type FunctionKeyView = ((Seq<char>, usize, usize), Seq<char>);

/// An identifier together with the canonical text of a signature.
pub struct FunctionKey {
    pub ident: FunctionIdent,
    pub signature: String,
}

impl View for FunctionKey {
    type V = FunctionKeyView;

    open spec fn view(&self) -> FunctionKeyView {
        (self.ident@, self.signature@)
    }
}

impl CacheKey for FunctionKey {
    fn same_key(&self, other: &Self) -> (r: bool) {
        self.ident.span_start == other.ident.span_start && self.ident.span_end
            == other.ident.span_end && self.ident.name == other.ident.name && self.signature
            == other.signature
    }
}

/// A cached handle to a resolved function declaration.
#[derive(Clone, Debug)]
pub struct FunctionCacheEntry<D> {
    pub fn_decl: D,
}

/// The function cache: declaration handles keyed by identifier and canonical
/// signature text, last write wins.
pub struct FunctionCache<D> {
    store: KeyedStore<FunctionKey, FunctionCacheEntry<D>>,
}

impl<D> View for FunctionCache<D> {
    type V = Map<FunctionKeyView, D>;

    closed spec fn view(&self) -> Map<FunctionKeyView, D> {
        self.store@.map_values(|e: FunctionCacheEntry<D>| e.fn_decl)
    }
}

impl<D> FunctionCache<D> {
    /// An empty cache.
    pub fn new() -> (r: Self)
        ensures
            r@ == Map::<FunctionKeyView, D>::empty(),
    {
        let r = FunctionCache { store: KeyedStore::new() };
        proof {
            assert(r@ =~= Map::<FunctionKeyView, D>::empty());
        }
        r
    }

    /// Stores `fn_decl` under the identifier and the signature's canonical text.
    pub fn insert(&mut self, ident: FunctionIdent, signature: String, fn_decl: D)
        ensures
            final(self)@ == old(self)@.insert((ident@, signature@), fn_decl),
    {
        let key = FunctionKey { ident, signature };
        let ghost k = key@;
        self.store.insert(key, FunctionCacheEntry { fn_decl });
        proof {
            assert(final(self)@ =~= old(self)@.insert(k, fn_decl));
        }
    }
}

impl<D: Clone> FunctionCache<D> {
    /// A clone of the handle stored under the identifier and the signature's
    /// canonical text, or `None` if there is none.
    pub fn get(&self, ident: &FunctionIdent, signature: &String) -> (r: Option<D>)
        ensures
            match r {
                Some(d) => self@.contains_key((ident@, signature@)) && cloned(
                    self@[(ident@, signature@)],
                    d,
                ),
                None => !self@.contains_key((ident@, signature@)),
            },
    {
        let key = FunctionKey { ident: ident.duplicate(), signature: signature.clone() };
        match self.store.get(&key) {
            Some(e) => Some(e.fn_decl.clone()),
            None => None,
        }
    }
}

impl<D> Default for FunctionCache<D> {
    fn default() -> (r: Self)
        ensures
            r@ == Map::<FunctionKeyView, D>::empty(),
    {
        FunctionCache::new()
    }
}

/// Under one identifier, two signatures with different canonical texts keep
/// separate entries, while two that render to the same text share one entry,
/// which the later insert replaces.
pub proof fn lemma_keyed_by_canonical_text<D>(
    m: Map<FunctionKeyView, D>,
    ident: (Seq<char>, usize, usize),
    text1: Seq<char>,
    text2: Seq<char>,
    d1: D,
    d2: D,
)
    ensures
        text1 != text2 ==> m.insert((ident, text1), d1).insert((ident, text2), d2)[(ident, text1)]
            == d1,
        m.insert((ident, text1), d1).insert((ident, text2), d2)[(ident, text2)] == d2,
        text1 == text2 ==> m.insert((ident, text1), d1).insert((ident, text2), d2) == m.insert(
            (ident, text2),
            d2,
        ),
{
    if text1 == text2 {
        assert(m.insert((ident, text1), d1).insert((ident, text2), d2) =~= m.insert(
            (ident, text2),
            d2,
        ));
    }
}

} // verus!
