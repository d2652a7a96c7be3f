//! The two operations the application host invokes: reading and writing the
//! clock style, one string setting stored under a well-known key.

use vstd::prelude::*;

use crate::error::StorageError;
use crate::store::SettingsStore;

verus! {

/// The well-known key under which the clock style is stored.
pub open spec fn clock_style_key() -> Seq<char> {
    "clock_style"@
}

/// Reads the saved clock style: the style, if one was ever saved, or `None`
/// if none was. Absence is a normal result, not an error.
pub fn load_clock_style(store: &SettingsStore) -> (r: Result<Option<String>, StorageError>)
    ensures
        match r {
            Ok(Some(v)) => store@.contains_key(clock_style_key()) && v@ == store@[clock_style_key()],
            Ok(None) => !store@.contains_key(clock_style_key()),
            Err(_) => true,
        },
{
    store.load("clock_style")
}

/// Saves the clock style under its well-known key, replacing any earlier
/// one. A failed write leaves the store unchanged.
pub fn save_clock_style(store: &mut SettingsStore, style: &str) -> (r: Result<(), StorageError>)
    ensures
        r is Ok ==> final(store)@ == old(store)@.insert(clock_style_key(), style@),
        r is Err ==> final(store)@ == old(store)@,
{
    store.save("clock_style", style)
}

} // verus!
