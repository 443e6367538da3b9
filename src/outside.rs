//! Declarations of the outside types that the library carries through its
//! logic without looking inside them, and the contracts of the outside
//! functions that it calls.
use vstd::prelude::*;
use revm::primitives::{AccountInfo, Address, Bytecode, FixedBytes};
use revm::primitives::ruint::Uint;
use tokio::sync::mpsc::UnboundedSender;
use revm::db::{CacheDB, EmptyDB, EmptyDBTyped};
use serde::de::DeserializeOwned;
use crate::fetch::NewFetch;

verus! {

#[verifier::external_type_specification]
#[verifier::external_body]
pub struct ExAddress(Address);

#[verifier::external_type_specification]
#[verifier::external_body]
pub struct ExFixedBytes<const N: usize>(FixedBytes<N>);

#[verifier::external_type_specification]
#[verifier::external_body]
pub struct ExUint<const BITS: usize, const LIMBS: usize>(Uint<BITS, LIMBS>);

#[verifier::external_type_specification]
#[verifier::external_body]
pub struct ExAccountInfo(AccountInfo);

#[verifier::external_type_specification]
#[verifier::external_body]
pub struct ExBytecode(Bytecode);

#[verifier::external_type_specification]
#[verifier::external_body]
#[verifier::reject_recursive_types(T)]
pub struct ExUnboundedSender<T>(UnboundedSender<T>);

#[verifier::external_type_specification]
#[verifier::external_body]
#[verifier::reject_recursive_types(ExtDB)]
pub struct ExCacheDB<ExtDB>(CacheDB<ExtDB>);

#[verifier::external_type_specification]
#[verifier::external_body]
#[verifier::reject_recursive_types(E)]
pub struct ExEmptyDBTyped<E>(EmptyDBTyped<E>);

#[verifier::external_type_specification]
#[verifier::external_body]
pub struct ExJsonError(serde_json::Error);

/// Relies on the `Clone` impl that revm derives for `AccountInfo`: it
/// clones each field, so the copy is the same record.
pub assume_specification[ <AccountInfo as Clone>::clone ](a: &AccountInfo) -> (r: AccountInfo)
    ensures
        r == *a,
;

/// Relies on tokio's `UnboundedSender::send`: it never blocks, and when the
/// receiving half is gone it hands the message back in an error, which is
/// dropped here; delivery is best effort. Nothing is stated of the channel,
/// whose state Verus does not see.
#[verifier::external_body]
pub(crate) fn send_fetch(sender: &UnboundedSender<NewFetch>, fetch: NewFetch) {
    let _ = sender.send(fetch);
}

/// Relies on `serde_json::to_string`: the JSON text of a cache, or the
/// encoder's error.
#[verifier::external_body]
pub(crate) fn json_of_cache(cache_db: &CacheDB<EmptyDB>) -> Result<String, serde_json::Error> {
    serde_json::to_string(cache_db)
}

/// Relies on `serde_json::from_str`: the cache that `text` encodes, or the
/// decoder's error.
#[verifier::external_body]
pub(crate) fn cache_of_json<ExtDB: DeserializeOwned>(text: &str) -> Result<
    CacheDB<ExtDB>,
    serde_json::Error,
> {
    serde_json::from_str::<CacheDB<ExtDB>>(text)
}

} // verus!
