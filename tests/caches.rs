use query_engine::engine::QueryEngine;
use query_engine::function_cache::{FunctionCache, FunctionIdent};
use query_engine::module_cache::{ModuleCache, ModuleCacheEntry, ModuleCacheKey, Timestamp};
use query_engine::programs_cache::{ProgramsCache, ProgramsCacheEntry};
use query_engine::store::{CacheKey, KeyedStore};

type Engine = QueryEngine<String, String, String, u64>;

fn module_entry(path: &str, include_tests: bool, hash: u64) -> ModuleCacheEntry {
    ModuleCacheEntry {
        path: path.to_string(),
        modified_time: Some(Timestamp { secs: 1_700_000_000, nanos: 5 }),
        hash,
        dependencies: vec!["/lib.sw".to_string(), "/std.sw".to_string()],
        include_tests,
        version: Some(3),
    }
}

fn ident(name: &str, start: usize, end: usize) -> FunctionIdent {
    FunctionIdent { name: name.to_string(), span_start: start, span_end: end }
}

fn render(parts: &Vec<&str>) -> String {
    parts.iter().map(|p| p.trim()).collect::<Vec<_>>().join(",")
}

#[test]
fn module_key_new_keeps_fields() {
    let k = ModuleCacheKey::new("/a.sw".to_string(), true);
    assert_eq!(k.path, "/a.sw");
    assert!(k.include_tests);
    let d = k.duplicate();
    assert_eq!(d, k);
}

#[test]
fn module_entry_key_and_duplicate() {
    let e = module_entry("/m.sw", true, 42);
    assert_eq!(e.key(), ModuleCacheKey::new("/m.sw".to_string(), true));
    let d = e.duplicate();
    assert_eq!(d.path, "/m.sw");
    assert_eq!(d.hash, 42);
    assert_eq!(d.dependencies, vec!["/lib.sw".to_string(), "/std.sw".to_string()]);
    assert_eq!(d.modified_time, Some(Timestamp { secs: 1_700_000_000, nanos: 5 }));
    assert_eq!(d.version, Some(3));
    assert!(d.include_tests);
}

#[test]
fn module_insert_then_get_returns_entry() {
    let engine = Engine::new();
    let e = module_entry("/x.sw", false, 7);
    engine.insert_parse_module_cache_entry(e.clone());
    let got = engine.get_parse_module_cache_entry(&e.key()).expect("entry present");
    assert_eq!(got.path, e.path);
    assert_eq!(got.hash, e.hash);
    assert_eq!(got.dependencies, e.dependencies);
    assert_eq!(got.modified_time, e.modified_time);
    assert_eq!(got.include_tests, e.include_tests);
    assert_eq!(got.version, e.version);
}

#[test]
fn module_get_never_inserted_is_none() {
    let engine = Engine::new();
    assert!(engine.get_parse_module_cache_entry(&ModuleCacheKey::new("/a.sw".to_string(), false)).is_none());
    engine.insert_parse_module_cache_entry(module_entry("/a.sw", false, 1));
    assert!(engine.get_parse_module_cache_entry(&ModuleCacheKey::new("/b.sw".to_string(), false)).is_none());
    assert!(engine.get_parse_module_cache_entry(&ModuleCacheKey::new("/a.sw".to_string(), true)).is_none());
}

#[test]
fn module_last_write_wins() {
    let engine = Engine::new();
    engine.insert_parse_module_cache_entry(module_entry("/a.sw", false, 1));
    engine.insert_parse_module_cache_entry(module_entry("/a.sw", false, 9));
    let key = ModuleCacheKey::new("/a.sw".to_string(), false);
    assert_eq!(engine.get_parse_module_cache_entry(&key).unwrap().hash, 9);
}

#[test]
fn module_include_tests_variants_are_independent() {
    let engine = Engine::new();
    engine.insert_parse_module_cache_entry(module_entry("/a.sw", false, 1));
    engine.insert_parse_module_cache_entry(module_entry("/a.sw", true, 2));
    let without = ModuleCacheKey::new("/a.sw".to_string(), false);
    let with = ModuleCacheKey::new("/a.sw".to_string(), true);
    assert_eq!(engine.get_parse_module_cache_entry(&without).unwrap().hash, 1);
    assert_eq!(engine.get_parse_module_cache_entry(&with).unwrap().hash, 2);
}

#[test]
fn module_cache_direct_use() {
    let mut cache = ModuleCache::new();
    assert!(cache.get(&ModuleCacheKey::new("/c.sw".to_string(), false)).is_none());
    cache.insert(module_entry("/c.sw", false, 5));
    cache.insert(module_entry("/c.sw", false, 6));
    cache.insert(module_entry("/d.sw", false, 8));
    assert_eq!(cache.get(&ModuleCacheKey::new("/c.sw".to_string(), false)).unwrap().hash, 6);
    assert_eq!(cache.get(&ModuleCacheKey::new("/d.sw".to_string(), false)).unwrap().hash, 8);
    let defaulted: ModuleCache = Default::default();
    assert!(defaulted.get(&ModuleCacheKey::new("/c.sw".to_string(), false)).is_none());
}

#[test]
fn function_cache_distinguishes_signature_texts() {
    let engine = Engine::new();
    let sig_a = vec!["u64", "bool"];
    let sig_b = vec!["u64", "u8"];
    engine.insert_function(render, ident("f", 10, 11), sig_a.clone(), 100);
    engine.insert_function(render, ident("f", 10, 11), sig_b.clone(), 200);
    assert_eq!(engine.get_function(render, ident("f", 10, 11), sig_a), Some(100));
    assert_eq!(engine.get_function(render, ident("f", 10, 11), sig_b), Some(200));
}

#[test]
fn function_cache_collapses_same_canonical_text() {
    let engine = Engine::new();
    let sig_a = vec!["u64", "bool"];
    let sig_b = vec![" u64 ", "bool "];
    assert_ne!(sig_a, sig_b);
    engine.insert_function(render, ident("f", 10, 11), sig_a.clone(), 100);
    engine.insert_function(render, ident("f", 10, 11), sig_b.clone(), 300);
    assert_eq!(engine.get_function(render, ident("f", 10, 11), sig_a), Some(300));
    assert_eq!(engine.get_function(render, ident("f", 10, 11), sig_b), Some(300));
}

#[test]
fn function_cache_distinguishes_identifiers() {
    let engine = Engine::new();
    let sig = vec!["u64"];
    engine.insert_function(render, ident("f", 10, 11), sig.clone(), 1);
    assert_eq!(engine.get_function(render, ident("f", 20, 21), sig.clone()), None);
    assert_eq!(engine.get_function(render, ident("g", 10, 11), sig.clone()), None);
    assert_eq!(engine.get_function(render, ident("f", 10, 11), sig), Some(1));
}

#[test]
fn function_cache_direct_use() {
    let mut cache: FunctionCache<u64> = FunctionCache::new();
    let id = ident("main", 0, 4);
    assert_eq!(cache.get(&id, &"()".to_string()), None);
    cache.insert(id.duplicate(), "()".to_string(), 5);
    cache.insert(id.duplicate(), "(u64)".to_string(), 6);
    cache.insert(id.duplicate(), "()".to_string(), 7);
    assert_eq!(cache.get(&id, &"()".to_string()), Some(7));
    assert_eq!(cache.get(&id, &"(u64)".to_string()), Some(6));
}

#[test]
fn programs_round_trip_keeps_diagnostics() {
    let engine = Engine::new();
    engine.insert_programs_cache_entry(ProgramsCacheEntry {
        path: "/b.sw".to_string(),
        programs: "P".to_string(),
        handler_data: (vec!["err1".to_string()], vec!["warn1".to_string()]),
    });
    let got = engine.get_programs_cache_entry(&"/b.sw".to_string()).expect("entry present");
    assert_eq!(got.path, "/b.sw");
    assert_eq!(got.programs, "P");
    assert_eq!(got.handler_data, (vec!["err1".to_string()], vec!["warn1".to_string()]));
    assert!(engine.get_programs_cache_entry(&"/c.sw".to_string()).is_none());
}

#[test]
fn programs_cache_overwrites_by_path() {
    let mut cache: ProgramsCache<u32, String, String> = ProgramsCache::new();
    cache.insert(ProgramsCacheEntry {
        path: "/b.sw".to_string(),
        programs: 1,
        handler_data: (vec!["e".to_string()], vec![]),
    });
    cache.insert(ProgramsCacheEntry { path: "/b.sw".to_string(), programs: 2, handler_data: (vec![], vec![]) });
    let got = cache.get(&"/b.sw".to_string()).unwrap();
    assert_eq!(got.programs, 2);
    assert!(got.handler_data.0.is_empty());
    assert!(got.handler_data.1.is_empty());
    let dup = got.duplicate();
    assert_eq!(dup.programs, 2);
}

#[test]
fn duplicated_handle_shares_storage() {
    let engine = Engine::new();
    let handle = engine.clone();
    handle.insert_parse_module_cache_entry(module_entry("/shared.sw", false, 77));
    handle.insert_programs_cache_entry(ProgramsCacheEntry {
        path: "/shared.sw".to_string(),
        programs: "tree".to_string(),
        handler_data: (vec![], vec!["w".to_string()]),
    });
    handle.insert_function(render, ident("h", 1, 2), vec!["u8"], 9);
    let key = ModuleCacheKey::new("/shared.sw".to_string(), false);
    assert_eq!(engine.get_parse_module_cache_entry(&key).unwrap().hash, 77);
    assert_eq!(engine.get_programs_cache_entry(&"/shared.sw".to_string()).unwrap().programs, "tree");
    assert_eq!(engine.get_function(render, ident("h", 1, 2), vec!["u8"]), Some(9));
}

#[test]
fn inserts_under_distinct_keys_from_many_handles_are_all_kept() {
    let engine = Engine::new();
    let n: u64 = 16;
    let handles: Vec<Engine> = (0..n).map(|_| engine.clone()).collect();
    for (i, handle) in handles.iter().enumerate() {
        handle.insert_parse_module_cache_entry(module_entry(&format!("/m{}.sw", i), false, i as u64));
    }
    for i in 0..n {
        let key = ModuleCacheKey::new(format!("/m{}.sw", i), false);
        assert_eq!(engine.get_parse_module_cache_entry(&key).unwrap().hash, i);
    }
}

#[test]
fn keyed_store_counts_distinct_keys() {
    let mut store: KeyedStore<String, u8> = KeyedStore::new();
    assert_eq!(store.len(), 0);
    store.insert("a".to_string(), 1);
    store.insert("b".to_string(), 2);
    store.insert("a".to_string(), 3);
    assert_eq!(store.len(), 2);
    assert_eq!(store.get(&"a".to_string()), Some(&3));
    assert_eq!(store.get(&"c".to_string()), None);
    assert!("x".to_string().same_key(&"x".to_string()));
    assert!(!"x".to_string().same_key(&"y".to_string()));
}
