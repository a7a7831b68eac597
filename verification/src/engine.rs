//! The concurrent key-to-[`Value`] map: get/set/delete behind a single
//! coarse-grained reader-writer lock.

use vstd::prelude::*;
use vstd::rwlock::RwLock;
use vstd::rwlock::RwLockPredicate;

use crate::error::StorageError;
use crate::store::StoreMap;
use crate::value::Value;

verus! {

/// What the lock maintains of the guarded store: it stays well-formed,
/// so a reader never sees a map whose keys collide.
pub struct StoreInv {}

impl<T: View> RwLockPredicate<StoreMap<T>> for StoreInv {
    open spec fn inv(self, v: StoreMap<T>) -> bool {
        v.wf()
    }
}

/// A concurrent mapping from string key to opaque [`Value`].
///
/// The whole map sits behind one reader-writer lock: many `get` calls
/// may read at once, while `set` and `delete` take exclusive access.
/// Writers are verified never to fail while holding the lock, so the
/// poisoned state that [`StorageError::Poisoned`] reports is never
/// entered and every operation returns `Ok`.
pub struct Engine {
    store: RwLock<StoreMap<Value>, StoreInv>,
}

impl Engine {
    /// An empty store. No failure mode.
    pub fn new() -> Engine {
        Engine { store: RwLock::new(StoreMap::new(), Ghost(StoreInv {})) }
    }

    /// Under a shared lock, an independent copy of the value held for
    /// `key`, or `None` exactly when the key is absent at the moment of
    /// the read.
    pub fn get(&self, key: &str) -> (r: Result<Option<Value>, StorageError>)
        ensures
            r is Ok,
    {
        let k: String = key.to_owned();
        let handle = self.store.acquire_read();
        let m = handle.borrow();
        let found = match m.get(&k) {
            Some(v) => Some(v.clone()),
            None => None,
        };
        handle.release_read();
        Ok(found)
    }

    /// Under an exclusive lock, insert or overwrite the value held for
    /// `key`.
    pub fn set(&self, key: String, value: Value) -> (r: Result<(), StorageError>)
        ensures
            r is Ok,
    {
        let (mut m, handle) = self.store.acquire_write();
        m.insert(key, value);
        handle.release_write(m);
        Ok(())
    }

    /// Under an exclusive lock, remove `key` and hand back the value it
    /// held, or `None` exactly when it was absent.
    pub fn delete(&self, key: &str) -> (r: Result<Option<Value>, StorageError>)
        ensures
            r is Ok,
    {
        let k: String = key.to_owned();
        let (mut m, handle) = self.store.acquire_write();
        let prev = m.remove(&k);
        handle.release_write(m);
        Ok(prev)
    }
}

} // verus!
