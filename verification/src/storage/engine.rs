//! A concurrent key-to-string map: the engine specialised to plain
//! string values, with the same get/set/delete surface and the same
//! coarse-grained reader-writer lock.

use vstd::prelude::*;
use vstd::rwlock::RwLock;

use crate::engine::StoreInv;
use crate::error::StorageError;
use crate::store::StoreMap;

verus! {

/// A concurrent mapping from string key to string value.
///
/// As with the value engine, writers are verified never to fail while
/// holding the lock, so the poisoned state that
/// [`StorageError::Poisoned`] reports is never entered and every
/// operation returns `Ok`.
pub struct Engine {
    store: RwLock<StoreMap<String>, StoreInv>,
}

impl Engine {
    /// An empty store. No failure mode.
    pub fn new() -> Engine {
        Engine { store: RwLock::new(StoreMap::new(), Ghost(StoreInv {})) }
    }

    /// Under a shared lock, an independent copy of the string held for
    /// `key`, or `None` exactly when the key is absent at the moment of
    /// the read.
    pub fn get(&self, key: &str) -> (r: Result<Option<String>, StorageError>)
        ensures
            r is Ok,
    {
        let k: String = key.to_owned();
        let handle = self.store.acquire_read();
        let m = handle.borrow();
        let found = match m.get(&k) {
            Some(v) => Some(v.clone()),
            None => None,
        };
        handle.release_read();
        Ok(found)
    }

    /// Under an exclusive lock, insert or overwrite the string held for
    /// `key`.
    pub fn set(&self, key: String, value: String) -> (r: Result<(), StorageError>)
        ensures
            r is Ok,
    {
        let (mut m, handle) = self.store.acquire_write();
        m.insert(key, value);
        handle.release_write(m);
        Ok(())
    }

    /// Under an exclusive lock, remove `key` and hand back the string it
    /// held, or `None` exactly when it was absent.
    pub fn delete(&self, key: &str) -> (r: Result<Option<String>, StorageError>)
        ensures
            r is Ok,
    {
        let k: String = key.to_owned();
        let (mut m, handle) = self.store.acquire_write();
        let prev = m.remove(&k);
        handle.release_write(m);
        Ok(prev)
    }
}

} // verus!
