//! Updating a pool's authority and configuration, and advancing its
//! redemption counter.

use vstd::prelude::*;
use crate::errors::TarsError;
use crate::features::{feature_active, is_feature_active, COLLECTIONS_FEATURE_INDEX};
use crate::keys::Pubkey;
use crate::state::{Tars, TarsData};

verus! {

/// Hand the pool to a new authority; `None` changes nothing.
pub fn update_authority(tars: &mut Tars, new_authority: Option<Pubkey>)
    ensures
        *final(tars) == (Tars {
            authority: match new_authority {
                Some(a) => a,
                None => old(tars).authority,
            },
            ..*old(tars)
        }),
{
    if let Some(new_auth) = new_authority {
        tars.authority = new_auth;
    }
}

/// Replace the pool's configuration, keeping its identifier. The
/// capacity may only change on a hidden-settings configuration; a pool
/// that already has items cannot switch to hidden settings; a pool
/// with a collection attached must retain authority. On any refusal
/// the pool is left untouched.
pub fn update_tars(
    tars: &mut Tars,
    data: TarsData,
    wallet: Pubkey,
    token_mint: Option<Pubkey>,
) -> (r: Result<(), TarsError>)
    requires
        old(tars).data.uuid@.len() == 6,
    ensures
        match r {
            Err(e) => *final(tars) == *old(tars) && {
                if data.items_available != old(tars).data.items_available
                    && data.hidden_settings is None {
                    e == TarsError::CannotChangeNumberOfLines
                } else if old(tars).data.items_available > 0 && old(
                    tars,
                ).data.hidden_settings is None && data.hidden_settings is Some {
                    e == TarsError::CannotSwitchToHiddenSettings
                } else {
                    &&& e == TarsError::TarsCollectionRequiresRetainAuthority
                    &&& feature_active(old(tars).data.uuid@, COLLECTIONS_FEATURE_INDEX as u8)
                    &&& !data.retain_authority
                }
            },
            Ok(()) => {
                &&& !(data.items_available != old(tars).data.items_available
                    && data.hidden_settings is None)
                &&& !(old(tars).data.items_available > 0 && old(
                    tars,
                ).data.hidden_settings is None && data.hidden_settings is Some)
                &&& !(feature_active(old(tars).data.uuid@, COLLECTIONS_FEATURE_INDEX as u8)
                    && !data.retain_authority)
                &&& *final(tars) == (Tars {
                    wallet,
                    token_mint,
                    data: TarsData { uuid: old(tars).data.uuid, ..data },
                    ..*old(tars)
                })
            },
        },
{
    if data.items_available != tars.data.items_available && data.hidden_settings.is_none() {
        return Err(TarsError::CannotChangeNumberOfLines);
    }
    if tars.data.items_available > 0 && tars.data.hidden_settings.is_none()
        && data.hidden_settings.is_some() {
        return Err(TarsError::CannotSwitchToHiddenSettings);
    }
    if is_feature_active(&tars.data.uuid, COLLECTIONS_FEATURE_INDEX) && !data.retain_authority {
        return Err(TarsError::TarsCollectionRequiresRetainAuthority);
    }
    let mut new_data = data;
    core::mem::swap(&mut new_data.uuid, &mut tars.data.uuid);
    tars.wallet = wallet;
    tars.data = new_data;
    tars.token_mint = token_mint;
    Ok(())
}

/// Record one more redemption. Callers establish that supply remains:
/// the counter never passes the pool's capacity.
pub fn redeem_one(tars: &mut Tars)
    requires
        old(tars).items_redeemed < old(tars).data.items_available,
    ensures
        *final(tars) == (Tars {
            items_redeemed: (old(tars).items_redeemed + 1) as u64,
            ..*old(tars)
        }),
        final(tars).items_redeemed <= final(tars).data.items_available,
{
    tars.items_redeemed = tars.items_redeemed + 1;
}

} // verus!
