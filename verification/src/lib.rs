//! A registry of named configuration files.
//!
//! Each record carries a filename, a short alias and a text payload. The
//! registry keeps both keys unique, and the workflows built on it (ingestion,
//! export, in-place editing, removal, listing) are written as functions from
//! plain values to plain values, so that every decision they take is stated in
//! a contract and proved.

pub mod record;
pub mod error;
pub mod store;
pub mod edit;
pub mod export;
pub mod ingest;
pub mod removal;
pub mod listing;
pub mod table;
pub mod laws;
