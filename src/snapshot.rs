//! Turning the persisted part of an in-memory cache into JSON text and back.
use vstd::prelude::*;
use revm::db::{CacheDB, EmptyDB};
use serde::de::DeserializeOwned;
use crate::outside::{cache_of_json, json_of_cache};

verus! {

/// Why saving or loading a cache snapshot failed.
#[derive(Debug, Clone, Copy, PartialEq, Eq, Structural)]
pub enum SnapshotError {
    /// The file could not be created, opened, read or written.
    Io,
    /// The cache could not be encoded as text.
    Serialize,
    /// The text is not an encoded cache.
    Deserialize,
}

/// The JSON text of a snapshot, whose only failure is an encoding error.
pub fn encode_cache_db(snapshot: &CacheDB<EmptyDB>) -> (r: Result<String, SnapshotError>)
    ensures
        r is Err ==> r->Err_0 == SnapshotError::Serialize,
{
    match json_of_cache(snapshot) {
        Ok(json) => Ok(json),
        Err(_) => Err(SnapshotError::Serialize),
    }
}

/// The cache that `json` encodes; text that encodes no cache fails with a
/// decoding error and with no other kind.
pub fn decode_cache_db<ExtDB: DeserializeOwned>(json: &str) -> (r: Result<CacheDB<ExtDB>, SnapshotError>)
    ensures
        r is Err ==> r->Err_0 == SnapshotError::Deserialize,
{
    match cache_of_json::<ExtDB>(json) {
        Ok(cache_db) => Ok(cache_db),
        Err(_) => Err(SnapshotError::Deserialize),
    }
}

} // verus!
