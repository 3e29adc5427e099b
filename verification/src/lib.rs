//! Verified core of a periodic price tracker.
//!
//! The crate holds the decisions of the tracker as plain, deterministic
//! functions: the store rules, the steps of one fetch-persist-notify run, the
//! notification policy, and the recurring loop with its shutdown handling.
//! Timers, sockets, the database file and the process signal belong to the
//! program that drives these functions.

pub mod database;
pub mod error;
pub mod notifier;
pub mod pipeline;
pub mod quote_source;
pub mod settings;
pub mod task_loop;
