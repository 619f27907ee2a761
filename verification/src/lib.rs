//! A deterministic record store for expense entries: create, update and delete
//! against a keyed table, with strictly increasing identifiers and an event
//! emitted for every successful mutation. The host that embeds the store is
//! expected to serialize mutations and to commit them atomically on success.

pub mod laws;
pub mod record;
pub mod store;
