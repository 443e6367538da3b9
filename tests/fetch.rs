use proxy_db::fetch::{basic_fetch, storage_fetch};
use proxy_db::NewFetch;
use revm::primitives::{AccountInfo, Address, U256};

#[test]
fn basic_fetch_only_for_present_accounts() {
    let a = Address::repeat_byte(0xaa);
    let info = AccountInfo::from_balance(U256::from(100));
    let found: Result<Option<AccountInfo>, ()> = Ok(Some(info.clone()));
    match basic_fetch(a, &found) {
        Some(NewFetch::Basic { address, account_info }) => {
            assert_eq!(address, a);
            assert_eq!(account_info, info);
        }
        other => panic!("unexpected {:?}", other),
    }
    let absent: Result<Option<AccountInfo>, ()> = Ok(None);
    assert!(basic_fetch(a, &absent).is_none());
    let failed: Result<Option<AccountInfo>, ()> = Err(());
    assert!(basic_fetch(a, &failed).is_none());
}

#[test]
fn storage_fetch_for_every_success() {
    let a = Address::repeat_byte(0xbb);
    let zero: Result<U256, ()> = Ok(U256::ZERO);
    assert!(matches!(
        storage_fetch(a, U256::from(4), &zero),
        Some(NewFetch::Storage { address, index, value })
            if address == a && index == U256::from(4) && value == U256::ZERO
    ));
    let failed: Result<U256, ()> = Err(());
    assert!(storage_fetch(a, U256::from(4), &failed).is_none());
}
