//! Thread-safe handles on named, shared, in-memory SQLite databases.
//!
//! A handle owns a logical database name and a per-thread cache of
//! connections. Every thread that touches the handle gets a connection of its
//! own to the database of that name; handles with equal names see the same
//! data.

pub mod counter;
pub mod engine;
pub mod handle;
pub mod names;

pub use counter::NameCounter;
pub use engine::{new_shared, open_outcome, open_shared, OpenError};
pub use handle::SyncSqliteConnection;
pub use names::{open_uri, shared_name};
