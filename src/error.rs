//! Failures reported by the storage collaborator.

use vstd::prelude::*;

verus! {

/// Why a storage operation failed. The variants that wrap a database error
/// carry its message.
#[derive(Debug, Clone, PartialEq)]
pub enum PersistanceError {
    KeyNotFoundError,
    InitializationError(String),
    CouldNotInsert(String),
    CouldNotDelete(String),
    CouldNotUpdate(String),
    EntryHasDependencies,
}

/// The message that describes each failure.
pub open spec fn error_message(e: PersistanceError) -> Seq<char> {
    match e {
        PersistanceError::KeyNotFoundError => "Key not found!"@,
        PersistanceError::EntryHasDependencies => "Some items depend on this item!"@,
        PersistanceError::InitializationError(m) => m@,
        PersistanceError::CouldNotInsert(m) => m@,
        PersistanceError::CouldNotDelete(m) => m@,
        PersistanceError::CouldNotUpdate(m) => m@,
    }
}

impl PersistanceError {
    /// The message that describes this failure.
    pub fn to_string(&self) -> (r: String)
        ensures
            r@ == error_message(*self),
    {
        match self {
            PersistanceError::KeyNotFoundError => String::from_str("Key not found!"),
            PersistanceError::EntryHasDependencies => String::from_str("Some items depend on this item!"),
            PersistanceError::InitializationError(m) => m.clone(),
            PersistanceError::CouldNotInsert(m) => m.clone(),
            PersistanceError::CouldNotDelete(m) => m.clone(),
            PersistanceError::CouldNotUpdate(m) => m.clone(),
        }
    }
}

} // verus!
