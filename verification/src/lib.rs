//! An in-memory, time-to-live keyed byte-blob cache.
//!
//! Clients store an opaque payload under a string key with an expiry
//! deadline, retrieve it by key while it remains valid, and explicitly
//! delete it. Expired entries are removed lazily on read and in bulk by a
//! periodic sweep. Time is a monotonic tick count supplied by the caller,
//! so every operation is a pure function of the store and the clock value.

pub mod asset;
pub mod cache;
pub mod laws;
pub mod store;
