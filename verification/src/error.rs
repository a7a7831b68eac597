//! The failure taxonomy of the store's engines.

use vstd::prelude::*;

verus! {

/// Failure of a store operation.
///
/// `Io` is reserved for persistence collaborators outside this
/// in-memory core and is never produced by it; `Poisoned` reports that
/// an earlier writer failed while holding exclusive access, after which
/// the engine must be discarded.
#[derive(Debug)]
pub enum StorageError {
    Io(String),
    Poisoned,
}

impl StorageError {
    /// What this error means, as a human-readable seq of characters.
    pub open spec fn message_spec(&self) -> Seq<char> {
        match self {
            StorageError::Io(m) => "I/O error: "@ + m@,
            StorageError::Poisoned => "Lock poisoned"@,
        }
    }

    /// A human-readable description of the failure.
    pub fn message(&self) -> (r: String)
        ensures
            r@ == self.message_spec(),
    {
        match self {
            StorageError::Io(m) => {
                let mut s: String = "I/O error: ".to_owned();
                s.append(m.as_str());
                s
            },
            StorageError::Poisoned => "Lock poisoned".to_owned(),
        }
    }
}

} // verus!
