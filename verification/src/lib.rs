//! In-memory record table with spreadsheet export and a self-update client.
//!
//! The crate holds the logic of a small desktop tool: an append-only record
//! store with an auto-incrementing identifier, a renderer that lays the
//! records out as spreadsheet cells, and an update client that compares a
//! fetched release version against the running one.  Window drawing, network
//! fetches and file writes live outside the library; the library computes and
//! decides, and states what it computes in its contracts.

pub mod app;
pub mod clock;
pub mod data;
pub mod decimal;
pub mod export;
pub mod updater;
