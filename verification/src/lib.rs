//! Logical data layer of a comment feature over a content-addressed,
//! append-only ledger: entry lifecycle (create, address, tombstone-delete),
//! a typed link index from subject hashes to comment hashes, and a per-author
//! chain projection that replays history and excludes tombstoned creations.

pub mod types;
pub mod model;
pub mod ledger;
pub mod store;
pub mod links;
pub mod projection;
pub mod api;
pub mod laws;
