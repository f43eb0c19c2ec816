//! Memoization caches of a compiler front end: parsed module metadata,
//! compiled programs with their diagnostics, and resolved function
//! declarations, behind a shared handle that many threads may hold.

pub mod store;
mod lock;
pub mod module_cache;
pub mod engine;
pub mod programs_cache;
pub mod function_cache;
