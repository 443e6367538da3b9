//! An observing proxy over a read-only account and storage source of an
//! Ethereum execution engine.
//!
//! Every read is forwarded to the wrapped source unchanged; successful basic
//! account reads that find an account, and every successful storage read,
//! are also reported to an optional notification channel.
pub mod outside;
pub mod fetch;
pub mod proxy;
pub mod snapshot;

pub use fetch::NewFetch;
pub use proxy::{ProxyDB, Source};
pub use snapshot::{decode_cache_db, encode_cache_db, SnapshotError};
