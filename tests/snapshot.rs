use proxy_db::{decode_cache_db, encode_cache_db, SnapshotError};
use revm::db::{CacheDB, EmptyDB};
use revm::primitives::{AccountInfo, Address, Bytecode, Bytes, U256};

fn populated() -> CacheDB<EmptyDB> {
    let mut db = CacheDB::new(EmptyDB::new());
    let code = Bytecode::new_raw(Bytes::from(vec![0x60u8, 0x00, 0x60, 0x00, 0xf3]));
    let info = AccountInfo::new(U256::from(100), 3, code.hash_slow(), code);
    db.insert_account_info(Address::repeat_byte(0xaa), info);
    db.insert_account_info(Address::repeat_byte(0xbb), AccountInfo::from_balance(U256::from(5)));
    db.insert_account_storage(Address::repeat_byte(0xaa), U256::from(1), U256::from(77))
        .unwrap();
    db
}

#[test]
fn snapshot_round_trip_keeps_accounts_and_contracts() {
    let db = populated();
    let json = encode_cache_db(&db).unwrap();
    let back: CacheDB<EmptyDB> = decode_cache_db(&json).unwrap();
    assert_eq!(back.accounts.len(), db.accounts.len());
    for (address, account) in &db.accounts {
        let other = &back.accounts[address];
        assert_eq!(other.info, account.info);
        assert_eq!(other.info.code, account.info.code);
        assert_eq!(other.account_state, account.account_state);
        assert_eq!(other.storage, account.storage);
    }
    assert_eq!(back.contracts, db.contracts);
    assert!(back.logs.is_empty());
    assert!(back.block_hashes.is_empty());
}

#[test]
fn snapshot_json_names_accounts_and_contracts() {
    let json = encode_cache_db(&populated()).unwrap();
    assert!(json.contains("\"accounts\""));
    assert!(json.contains("\"contracts\""));
}

#[test]
fn invalid_text_fails_to_decode() {
    let r: Result<CacheDB<EmptyDB>, SnapshotError> = decode_cache_db("{ this is not json");
    assert_eq!(r.err(), Some(SnapshotError::Deserialize));
}

#[test]
fn missing_fields_fail_to_decode() {
    let r: Result<CacheDB<EmptyDB>, SnapshotError> = decode_cache_db("{\"accounts\": {}}");
    assert_eq!(r.err(), Some(SnapshotError::Deserialize));
}
