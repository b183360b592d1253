//! Counts key releases per day, key and application, and keeps the counts
//! in an SQLite database.
//!
//! The library is the part of the program that decides: what becomes of an
//! input event, when the buffer is flushed, what starting and stopping the
//! capture do, which statements go to the database and how its answers are
//! read. The program around it owns the threads, the keyboard hook and the
//! window, and does what the library's [`keyboard::Command`]s ask for.
//!
//! - [`keyboard`] holds the capture: the events, the controller with its
//!   model [`keyboard::HookState`], and the laws that hold of them.
//! - [`buffer`] holds the events that wait for a flush, and [`scheduler`]
//!   the rhythm of the flushes.
//! - [`db`] holds the store. What SQLite does with a statement is not
//!   modelled: the database is a file that other hands can change. Of the
//!   file the store states only which batches SQLite has committed through
//!   it ([`db::Database::acknowledged`]).
//! - [`statements`] builds what the store sends and [`rows`] reads what
//!   comes back; both have exact contracts.
//! - [`appinfo`] makes name and identifier of the application in front from
//!   what the system tells.
//! - [`tray`] says what the tray menu shows and what its entries do.
//!
//! The calls into `rusqlite` and `chrono` stand in two private modules and
//! are believed without proof; none of them claims anything of its result.

pub mod appinfo;
pub mod buffer;
mod clock;
pub mod db;
pub mod keyboard;
pub mod rows;
pub mod scheduler;
mod sqlite;
pub mod statements;
pub mod tray;
