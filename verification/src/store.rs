//! The settings store: a durable map from setting name to string value,
//! kept in one `kv` table of a local SQLite database.

use vstd::prelude::*;

use crate::db;
use crate::error::StorageError;

verus! {

/// A handle on the key/value table of one database.
///
/// Its view is the map from key to value that the table holds. A key is
/// bound at most once (it is the table's primary key); saving is an upsert,
/// so a second save of the same key replaces the value in place. No delete
/// operation is exposed: a row, once created, is only ever updated.
pub struct SettingsStore {
    conn: rusqlite::Connection,
}

impl View for SettingsStore {
    type V = Map<Seq<char>, Seq<char>>;

    closed spec fn view(&self) -> Map<Seq<char>, Seq<char>> {
        db::kv_of(self.conn)
    }
}

impl SettingsStore {
    /// Opens, creating if absent, the database file at `path`, and ensures
    /// the `kv` table exists. The store then holds whatever settings the
    /// file already held; nothing can be said of them here, since they
    /// depend on what is on disk.
    pub fn open(path: &str) -> Result<SettingsStore, StorageError> {
        let mut conn = match db::conn_open(path) {
            Ok(c) => c,
            Err(e) => {
                return Err(StorageError::storage_unavailable(db::describe_failure(
                    "failed to open sqlite db",
                    &e,
                )));
            },
        };
        match db::exec_create_kv_table(&mut conn) {
            Ok(()) => Ok(SettingsStore { conn }),
            Err(e) => Err(StorageError::storage_unavailable(db::describe_failure(
                "failed to initialize sqlite schema",
                &e,
            ))),
        }
    }

    /// Opens a fresh private in-memory database and ensures the `kv` table
    /// exists: the store starts with no settings at all.
    pub fn open_in_memory() -> (r: Result<SettingsStore, StorageError>)
        ensures
            r matches Ok(s) ==> s@ == Map::<Seq<char>, Seq<char>>::empty(),
    {
        let mut conn = match db::conn_open_in_memory() {
            Ok(c) => c,
            Err(e) => {
                return Err(StorageError::storage_unavailable(db::describe_failure(
                    "failed to open sqlite db",
                    &e,
                )));
            },
        };
        match db::exec_create_kv_table(&mut conn) {
            Ok(()) => Ok(SettingsStore { conn }),
            Err(e) => Err(StorageError::storage_unavailable(db::describe_failure(
                "failed to initialize sqlite schema",
                &e,
            ))),
        }
    }

    /// Applies the schema statement once more. It is idempotent: however
    /// often the table is ensured, no setting is duplicated or dropped.
    pub fn ensure_schema(&mut self) -> (r: Result<(), StorageError>)
        ensures
            final(self)@ == old(self)@,
    {
        match db::exec_create_kv_table(&mut self.conn) {
            Ok(()) => Ok(()),
            Err(e) => Err(StorageError::storage_unavailable(db::describe_failure(
                "failed to initialize sqlite schema",
                &e,
            ))),
        }
    }

    /// Looks up the value stored under `key`: the value, if the key was
    /// ever saved, or `None` if it never was. Absence is a normal result;
    /// only a failure of the backing storage is an error.
    pub fn load(&self, key: &str) -> (r: Result<Option<String>, StorageError>)
        ensures
            match r {
                Ok(Some(v)) => self@.contains_key(key@) && v@ == self@[key@],
                Ok(None) => !self@.contains_key(key@),
                Err(_) => true,
            },
    {
        match db::query_value(&self.conn, key) {
            Ok(v) => Ok(v),
            Err(e) => Err(StorageError::storage_unavailable(db::describe_failure(
                "failed to query sqlite",
                &e,
            ))),
        }
    }

    /// Inserts a row for `key`, or replaces the existing one (an upsert):
    /// afterwards `key` maps to `value` and every other key is untouched.
    /// A failed write leaves the store unchanged.
    pub fn save(&mut self, key: &str, value: &str) -> (r: Result<(), StorageError>)
        ensures
            r is Ok ==> final(self)@ == old(self)@.insert(key@, value@),
            r is Err ==> final(self)@ == old(self)@,
    {
        match db::exec_upsert(&mut self.conn, key, value) {
            Ok(()) => Ok(()),
            Err(e) => Err(StorageError::storage_unavailable(db::describe_failure(
                "failed to write sqlite value",
                &e,
            ))),
        }
    }
}

} // verus!
