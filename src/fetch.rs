//! The notifications that the proxy emits, and the rule that decides which
//! read results give one.
use vstd::prelude::*;
use revm::primitives::{AccountInfo, Address, U256};

verus! {

/// What the proxy reports of a successful read.
#[derive(Debug)]
pub enum NewFetch {
    /// A basic account read that found an account.
    Basic { address: Address, account_info: AccountInfo },
    /// A storage read, whatever value it returned.
    Storage { address: Address, index: U256, value: U256 },
}

/// The notification owed for a basic account read of `address` that gave
/// `result`: one only when the read succeeded and found an account.
pub open spec fn basic_notice<E>(address: Address, result: Result<Option<AccountInfo>, E>) -> Option<
    NewFetch,
> {
    match result {
        Ok(Some(account_info)) => Some(NewFetch::Basic { address, account_info }),
        _ => None,
    }
}

/// The notification owed for a storage read of `index` at `address` that
/// gave `result`: one for every successful read, zero values included.
pub open spec fn storage_notice<E>(address: Address, index: U256, result: Result<U256, E>) -> Option<
    NewFetch,
> {
    match result {
        Ok(value) => Some(NewFetch::Storage { address, index, value }),
        Err(_) => None,
    }
}

/// Whether a basic account read succeeded and found an account.
pub open spec fn is_present<E>(result: Result<Option<AccountInfo>, E>) -> bool {
    result matches Ok(Some(_))
}

/// The notifications that a run of basic account reads gives, in order.
pub open spec fn basic_notices<E>(reads: Seq<(Address, Result<Option<AccountInfo>, E>)>) -> Seq<
    NewFetch,
>
    decreases reads.len(),
{
    if reads.len() == 0 {
        Seq::empty()
    } else {
        let earlier = basic_notices(reads.drop_last());
        match basic_notice(reads.last().0, reads.last().1) {
            Some(n) => earlier.push(n),
            None => earlier,
        }
    }
}

/// The notification for a basic account read of `address` that gave `result`.
pub fn basic_fetch<E>(address: Address, result: &Result<Option<AccountInfo>, E>) -> (n: Option<
    NewFetch,
>)
    ensures
        n == basic_notice(address, *result),
{
    match result {
        Ok(Some(account_info)) => Some(
            NewFetch::Basic { address, account_info: account_info.clone() },
        ),
        _ => None,
    }
}

/// The notification for a storage read of `index` at `address` that gave
/// `result`.
pub fn storage_fetch<E>(address: Address, index: U256, result: &Result<U256, E>) -> (n: Option<
    NewFetch,
>)
    ensures
        n == storage_notice(address, index, *result),
{
    match result {
        Ok(value) => Some(NewFetch::Storage { address, index, value: *value }),
        Err(_) => None,
    }
}

/// Over any run of basic account reads, one notification is given for each
/// read that found an account and none for the others: the notifications are
/// the present reads, in order, each with its address and record.
pub proof fn lemma_basic_notices_count<E>(reads: Seq<(Address, Result<Option<AccountInfo>, E>)>)
    ensures
        basic_notices(reads) == reads.filter(|r: (Address, Result<Option<AccountInfo>, E>)| is_present(r.1)).map_values(
            |r: (Address, Result<Option<AccountInfo>, E>)|
                NewFetch::Basic { address: r.0, account_info: r.1->Ok_0->Some_0 },
        ),
        basic_notices(reads).len() == reads.filter(
            |r: (Address, Result<Option<AccountInfo>, E>)| is_present(r.1),
        ).len(),
    decreases reads.len(),
{
    let pred = |r: (Address, Result<Option<AccountInfo>, E>)| is_present(r.1);
    let f = |r: (Address, Result<Option<AccountInfo>, E>)|
        NewFetch::Basic { address: r.0, account_info: r.1->Ok_0->Some_0 };
    reveal(Seq::filter);
    if reads.len() > 0 {
        lemma_basic_notices_count(reads.drop_last());
        assert(basic_notices(reads) =~= reads.filter(pred).map_values(f));
    } else {
        assert(basic_notices(reads) =~= reads.filter(pred).map_values(f));
    }
}

/// A successful storage read gives exactly one notification, which carries
/// the read's address, index and value, zero values included; a failed one
/// gives none.
pub proof fn lemma_storage_notice_exact<E>(address: Address, index: U256, result: Result<U256, E>)
    ensures
        result is Ok ==> storage_notice(address, index, result) == Some(
            NewFetch::Storage { address, index, value: result->Ok_0 },
        ),
        result is Err ==> storage_notice(address, index, result) is None,
{
}

} // verus!
