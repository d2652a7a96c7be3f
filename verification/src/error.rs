use vstd::prelude::*;

verus! {

/// The single failure kind of the settings store: the backing storage could
/// not be resolved, opened, or acted on. It carries a human-readable cause.
///
/// Absence of a value (a key that was never saved) is a normal result of a
/// lookup, never an error.
#[derive(Debug)]
pub enum StorageError {
    StorageUnavailable { message: String },
}

impl StorageError {
    /// The characters of the cause text.
    pub closed spec fn spec_message(&self) -> Seq<char> {
        match self {
            StorageError::StorageUnavailable { message } => message@,
        }
    }

    /// Wraps a cause text in the one error kind.
    pub fn storage_unavailable(message: String) -> (r: StorageError)
        ensures
            r.spec_message() == message@,
    {
        StorageError::StorageUnavailable { message }
    }

    /// The human-readable cause.
    pub fn message(&self) -> (r: &str)
        ensures
            r@ == self.spec_message(),
    {
        match self {
            StorageError::StorageUnavailable { message } => message.as_str(),
        }
    }
}

} // verus!
