//! Trusted bindings to the embedded SQLite database, through rusqlite.
//!
//! The database behind a connection is modelled as a map from key to value:
//! the rows of the single `kv` table. Each binding's contract states what
//! the wrapped call does to that map; everything else about the store is
//! proved against these contracts.

use vstd::prelude::*;
use rusqlite::OptionalExtension;

verus! {

#[verifier::external_type_specification]
#[verifier::external_body]
pub struct ExConnection(rusqlite::Connection);

#[verifier::external_type_specification]
#[verifier::external_body]
pub struct ExError(rusqlite::Error);

/// The rows of the `kv` table behind a connection, as a map from key to
/// value. A database that does not hold that table holds the empty map.
pub uninterp spec fn kv_of(conn: rusqlite::Connection) -> Map<Seq<char>, Seq<char>>;

/// Relies on rusqlite::Connection::open: it opens, creating if absent, the
/// database file at `path`. What the database holds depends on that file,
/// so nothing is promised of the contents.
#[verifier::external_body]
pub(crate) fn conn_open(path: &str) -> Result<rusqlite::Connection, rusqlite::Error> {
    rusqlite::Connection::open(path)
}

/// Relies on rusqlite::Connection::open_in_memory: a fresh private
/// in-memory database holds no tables at all, so its `kv` table holds no
/// rows.
#[verifier::external_body]
pub(crate) fn conn_open_in_memory() -> (r: Result<rusqlite::Connection, rusqlite::Error>)
    ensures
        match r {
            Ok(c) => kv_of(c) == Map::<Seq<char>, Seq<char>>::empty(),
            Err(_) => true,
        },
{
    rusqlite::Connection::open_in_memory()
}

/// Relies on rusqlite::Connection::execute running `CREATE TABLE IF NOT
/// EXISTS kv ...`: it creates the table, empty, when it is missing, leaves
/// an existing table alone, and in either case changes no row; a statement
/// that fails changes nothing, since SQLite applies statements atomically.
#[verifier::external_body]
pub(crate) fn exec_create_kv_table(conn: &mut rusqlite::Connection) -> (r: Result<(), rusqlite::Error>)
    ensures
        kv_of(*final(conn)) == kv_of(*old(conn)),
{
    match conn.execute(
        "CREATE TABLE IF NOT EXISTS kv (key TEXT PRIMARY KEY NOT NULL, value TEXT NOT NULL)",
        (),
    ) {
        Ok(_) => Ok(()),
        Err(e) => Err(e),
    }
}

/// Relies on rusqlite::Connection::execute running `INSERT INTO kv ... ON
/// CONFLICT(key) DO UPDATE`: the upsert makes `key` map to `value` and
/// touches no other row; a statement that fails changes nothing, since
/// SQLite applies statements atomically.
#[verifier::external_body]
pub(crate) fn exec_upsert(conn: &mut rusqlite::Connection, key: &str, value: &str) -> (r: Result<(), rusqlite::Error>)
    ensures
        r is Ok ==> kv_of(*final(conn)) == kv_of(*old(conn)).insert(key@, value@),
        r is Err ==> kv_of(*final(conn)) == kv_of(*old(conn)),
{
    match conn.execute(
        "INSERT INTO kv (key, value) VALUES (?1, ?2) ON CONFLICT(key) DO UPDATE SET value = excluded.value",
        [key, value],
    ) {
        Ok(_) => Ok(()),
        Err(e) => Err(e),
    }
}

/// Relies on rusqlite::Connection::query_row running `SELECT value FROM kv
/// WHERE key = ?1`, with rusqlite::OptionalExtension::optional turning the
/// no-row outcome into `None`: `key` is the table's primary key, so at most
/// one row matches, and the row found holds the value stored under `key`.
#[verifier::external_body]
pub(crate) fn query_value(conn: &rusqlite::Connection, key: &str) -> (r: Result<Option<String>, rusqlite::Error>)
    ensures
        match r {
            Ok(Some(v)) => kv_of(*conn).contains_key(key@) && v@ == kv_of(*conn)[key@],
            Ok(None) => !kv_of(*conn).contains_key(key@),
            Err(_) => true,
        },
{
    conn.query_row("SELECT value FROM kv WHERE key = ?1 LIMIT 1", [key], |row| row.get(0))
        .optional()
}

/// Relies on the Display implementation of rusqlite::Error for the
/// human-readable cause text; `label` says which operation failed.
#[verifier::external_body]
pub(crate) fn describe_failure(label: &str, e: &rusqlite::Error) -> String {
    format!("{label}: {e}")
}

} // verus!
