//! Administrative decisions: draining the pool's funds and detaching a
//! collection.
//!
//! The account plumbing around these (moving lamports, the revoke call
//! into the metadata program, closing accounts) is the host's job; the
//! checks and the balance arithmetic are here.

use vstd::prelude::*;
use crate::errors::TarsError;
use crate::keys::{cmp_pubkeys, key_eq, Pubkey};

verus! {

/// Move the pool's whole balance onto the authority's: the pool ends
/// at zero and the authority gains exactly the pool's balance, unless
/// the sum overflows.
pub fn withdraw_balances(pool_lamports: u64, authority_lamports: u64) -> (r: Result<
    (u64, u64),
    TarsError,
>)
    ensures
        match r {
            Ok(balances) => pool_lamports + authority_lamports <= u64::MAX && balances.0 == 0
                && balances.1 == pool_lamports + authority_lamports,
            Err(e) => e == TarsError::NumericalOverflowError && pool_lamports + authority_lamports
                > u64::MAX,
        },
{
    match authority_lamports.checked_add(pool_lamports) {
        Some(total) => Ok((0, total)),
        None => Err(TarsError::NumericalOverflowError),
    }
}

/// Drain the pool's collection record as well: the supplied record
/// account must be the pool's own derived record address (the host
/// computes the expected address, since only the runtime's hashing
/// can); then its balance moves onto the authority's like the pool's.
pub fn withdraw_collection_record(
    record_key: &Pubkey,
    expected_record_key: &Pubkey,
    record_lamports: u64,
    authority_lamports: u64,
) -> (r: Result<(u64, u64), TarsError>)
    ensures
        match r {
            Ok(balances) => {
                &&& key_eq(*record_key, *expected_record_key)
                &&& record_lamports + authority_lamports <= u64::MAX
                &&& balances.0 == 0
                &&& balances.1 == record_lamports + authority_lamports
            },
            Err(e) => {
                if !key_eq(*record_key, *expected_record_key) {
                    e == TarsError::MismatchedCollectionPDA
                } else {
                    e == TarsError::NumericalOverflowError && record_lamports + authority_lamports
                        > u64::MAX
                }
            },
        },
{
    if !cmp_pubkeys(record_key, expected_record_key) {
        return Err(TarsError::MismatchedCollectionPDA);
    }
    withdraw_balances(record_lamports, authority_lamports)
}

/// Whether a collection may be detached from the pool: nothing minted
/// yet, the metadata's update authority is the pool authority, and the
/// metadata describes the given mint. Each check reports its own code,
/// in this order.
pub fn check_remove_collection(
    items_redeemed: u64,
    metadata_update_authority: &Pubkey,
    authority: &Pubkey,
    metadata_mint: &Pubkey,
    mint: &Pubkey,
) -> (r: Result<(), TarsError>)
    ensures
        match r {
            Ok(()) => items_redeemed == 0 && key_eq(*metadata_update_authority, *authority)
                && key_eq(*metadata_mint, *mint),
            Err(e) => {
                if items_redeemed > 0 {
                    e == TarsError::NoChangingCollectionDuringMint
                } else if !key_eq(*metadata_update_authority, *authority) {
                    e == TarsError::IncorrectCollectionAuthority
                } else {
                    e == TarsError::MintMismatch && !key_eq(*metadata_mint, *mint)
                }
            },
        },
{
    if items_redeemed > 0 {
        return Err(TarsError::NoChangingCollectionDuringMint);
    }
    if !cmp_pubkeys(metadata_update_authority, authority) {
        return Err(TarsError::IncorrectCollectionAuthority);
    }
    if !cmp_pubkeys(metadata_mint, mint) {
        return Err(TarsError::MintMismatch);
    }
    Ok(())
}

} // verus!
