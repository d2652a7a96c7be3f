//! A tiny durable key/value settings store backed by a local SQLite file.
//!
//! The store keeps named string settings in a single two-column table,
//! `kv(key TEXT PRIMARY KEY NOT NULL, value TEXT NOT NULL)`. Each setting
//! is written by an idempotent upsert and read back by its key; a key that
//! was never saved reads as `None`, which is not an error. All failures of
//! the backing storage surface as the one error kind `StorageError`.

pub mod clock_style;
mod db;
pub mod error;
pub mod laws;
pub mod store;

pub use clock_style::load_clock_style;
pub use clock_style::save_clock_style;
pub use error::StorageError;
pub use store::SettingsStore;
