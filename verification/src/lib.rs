//! An in-process key-value store: string keys mapped to opaque
//! binary-encoded values, guarded by a reader-writer lock for
//! concurrent access.

pub mod engine;
pub mod error;
pub mod laws;
pub mod storage;
pub mod store;
pub mod value;
