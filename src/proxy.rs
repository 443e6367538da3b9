//! The read-only source contract and the observing proxy over it.
use vstd::prelude::*;
use revm::primitives::{AccountInfo, Address, Bytecode, B256, U256};
use tokio::sync::mpsc::UnboundedSender;
use crate::fetch::{basic_fetch, storage_fetch, NewFetch};
use crate::outside::send_fetch;

verus! {

/// A read-only account and storage source with its own error type.
///
/// Each read is modelled by a spec function of the source's state: a read
/// returns what its model gives. A verified implementation defines the four
/// models; the defaults stand for an unknown value and leave the reads
/// unprovable until they are overridden.
pub trait Source {
    /// The error that the source's reads may return.
    type Error;

    /// What a basic account read of `address` gives.
    closed spec fn basic_view(&self, address: Address) -> Result<Option<AccountInfo>, Self::Error> {
        arbitrary()
    }

    /// What a read of the code with hash `code_hash` gives.
    closed spec fn code_view(&self, code_hash: B256) -> Result<Bytecode, Self::Error> {
        arbitrary()
    }

    /// What a read of the storage slot `index` of `address` gives.
    closed spec fn storage_view(&self, address: Address, index: U256) -> Result<U256, Self::Error> {
        arbitrary()
    }

    /// What a read of the hash of block `number` gives.
    closed spec fn block_hash_view(&self, number: u64) -> Result<B256, Self::Error> {
        arbitrary()
    }

    /// Get basic account information.
    fn basic_ref(&self, address: Address) -> (r: Result<Option<AccountInfo>, Self::Error>)
        ensures
            r == self.basic_view(address),
    ;

    /// Get account code by its hash.
    fn code_by_hash_ref(&self, code_hash: B256) -> (r: Result<Bytecode, Self::Error>)
        ensures
            r == self.code_view(code_hash),
    ;

    /// Get storage value of address at index.
    fn storage_ref(&self, address: Address, index: U256) -> (r: Result<U256, Self::Error>)
        ensures
            r == self.storage_view(address, index),
    ;

    /// Get block hash by block number.
    fn block_hash_ref(&self, number: u64) -> (r: Result<B256, Self::Error>)
        ensures
            r == self.block_hash_view(number),
    ;
}

/// A source that forwards every read to `db` and reports what was read to
/// `sender`, when one is attached.
pub struct ProxyDB<ExtDB> {
    pub db: ExtDB,
    pub sender: Option<UnboundedSender<NewFetch>>,
}

impl<ExtDB: Source> ProxyDB<ExtDB> {
    /// A proxy over `db` with no channel attached.
    pub fn new(db: ExtDB) -> (p: Self)
        ensures
            p.db == db,
            p.sender is None,
    {
        ProxyDB { db, sender: None }
    }

    /// Hands `notice` to the attached channel, if there is one and a
    /// notification is owed; a failed send is not the caller's concern.
    fn notify(&self, notice: Option<NewFetch>) {
        if let Some(sender) = &self.sender {
            if let Some(fetch) = notice {
                send_fetch(sender, fetch);
            }
        }
    }
}

impl<ExtDB: Source> Source for ProxyDB<ExtDB> {
    type Error = ExtDB::Error;

    open spec fn basic_view(&self, address: Address) -> Result<Option<AccountInfo>, Self::Error> {
        self.db.basic_view(address)
    }

    open spec fn code_view(&self, code_hash: B256) -> Result<Bytecode, Self::Error> {
        self.db.code_view(code_hash)
    }

    open spec fn storage_view(&self, address: Address, index: U256) -> Result<U256, Self::Error> {
        self.db.storage_view(address, index)
    }

    open spec fn block_hash_view(&self, number: u64) -> Result<B256, Self::Error> {
        self.db.block_hash_view(number)
    }

    fn basic_ref(&self, address: Address) -> (r: Result<Option<AccountInfo>, Self::Error>) {
        let account_info = self.db.basic_ref(address);
        let notice = basic_fetch(address, &account_info);
        self.notify(notice);
        account_info
    }

    fn code_by_hash_ref(&self, code_hash: B256) -> (r: Result<Bytecode, Self::Error>) {
        self.db.code_by_hash_ref(code_hash)
    }

    fn storage_ref(&self, address: Address, index: U256) -> (r: Result<U256, Self::Error>) {
        let value = self.db.storage_ref(address, index);
        let notice = storage_fetch(address, index, &value);
        self.notify(notice);
        value
    }

    fn block_hash_ref(&self, number: u64) -> (r: Result<B256, Self::Error>) {
        self.db.block_hash_ref(number)
    }
}

} // verus!
