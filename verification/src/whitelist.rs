//! Per-wallet whitelist allowances.
//!
//! A creator schedules four tiers; a wallet's allowance is created as a
//! snapshot of one tier, named by its ASCII name (`One` .. `Four`),
//! and grants as many mint spots as the tier's number. Each whitelist
//! mint consumes one spot.

use vstd::prelude::*;
use crate::errors::TarsError;
use crate::keys::Pubkey;
use crate::state::{WLStartTime, WLType, WalletWhitelist, WhitelistConfig};

verus! {

/// The ASCII name of a tier.
pub open spec fn tier_name(t: WLType) -> Seq<u8> {
    match t {
        WLType::One => seq![79u8, 110u8, 101u8],
        WLType::Two => seq![84u8, 119u8, 111u8],
        WLType::Three => seq![84u8, 104u8, 114u8, 101u8, 101u8],
        WLType::Four => seq![70u8, 111u8, 117u8, 114u8],
        WLType::Null => seq![],
    }
}

/// How many spots a tier grants.
pub open spec fn tier_spots(t: WLType) -> u8 {
    match t {
        WLType::One => 1,
        WLType::Two => 2,
        WLType::Three => 3,
        WLType::Four => 4,
        WLType::Null => 0,
    }
}

/// The schedule entry a tier snapshots.
pub open spec fn tier_schedule(config: WhitelistConfig, t: WLType) -> WLStartTime {
    match t {
        WLType::One => config.whitelist_schedule.wl_start_time_1,
        WLType::Two => config.whitelist_schedule.wl_start_time_2,
        WLType::Three => config.whitelist_schedule.wl_start_time_3,
        WLType::Four => config.whitelist_schedule.wl_start_time_4,
        WLType::Null => config.whitelist_schedule.wl_start_time_1,
    }
}

/// The allowance created for a wallet from one tier of a creator's
/// schedule.
pub open spec fn tier_snapshot(
    config: WhitelistConfig,
    t: WLType,
    tars_creator: Pubkey,
    whitelisted_address: Pubkey,
) -> WalletWhitelist {
    WalletWhitelist {
        tars_creator,
        whitelisted_address,
        whitelist_type: t,
        number_of_whitelist_spots_per_user: tier_spots(t),
        discounted_mint_price: tier_schedule(config, t).discounted_mint_price,
        whitelist_mint_start_time: tier_schedule(config, t).whitelist_mint_start_time,
    }
}

/// Compare two byte strings.
#[verifier::loop_isolation(false)]
fn bytes_eq(a: &Vec<u8>, b: &Vec<u8>) -> (r: bool)
    ensures
        r == (a@ == b@),
{
    if a.len() != b.len() {
        assert(a@ != b@);
        return false;
    }
    let len = a.len();
    let mut i: usize = 0;
    while i < len
        invariant
            i <= len,
            forall|j: int| 0 <= j < i ==> a@[j] == b@[j],
        decreases len - i,
    {
        if a[i] != b[i] {
            return false;
        }
        i = i + 1;
    }
    proof {
        assert(a@ =~= b@);
    }
    true
}

/// Create a wallet's allowance from the tier named `whitelist_type`
/// (ASCII `One`, `Two`, `Three` or `Four`); any other name is invalid
/// and creates nothing.
pub fn create_wallet_whitelist(
    whitelist_type: &Vec<u8>,
    config: &WhitelistConfig,
    tars_creator: Pubkey,
    whitelisted_address: Pubkey,
) -> (r: Result<WalletWhitelist, TarsError>)
    ensures
        match r {
            Ok(ww) => {
                &&& whitelist_type@ == tier_name(ww.whitelist_type)
                &&& ww.whitelist_type != WLType::Null
                &&& ww == tier_snapshot(
                    *config,
                    ww.whitelist_type,
                    tars_creator,
                    whitelisted_address,
                )
            },
            Err(e) => {
                &&& e == TarsError::InvalidWLType
                &&& whitelist_type@ != tier_name(WLType::One)
                &&& whitelist_type@ != tier_name(WLType::Two)
                &&& whitelist_type@ != tier_name(WLType::Three)
                &&& whitelist_type@ != tier_name(WLType::Four)
            },
        },
{
    let one: Vec<u8> = vec![79, 110, 101];
    let two: Vec<u8> = vec![84, 119, 111];
    let three: Vec<u8> = vec![84, 104, 114, 101, 101];
    let four: Vec<u8> = vec![70, 111, 117, 114];
    proof {
        assert(one@ =~= tier_name(WLType::One));
        assert(two@ =~= tier_name(WLType::Two));
        assert(three@ =~= tier_name(WLType::Three));
        assert(four@ =~= tier_name(WLType::Four));
    }
    let tier: WLType;
    if bytes_eq(whitelist_type, &one) {
        tier = WLType::One;
    } else if bytes_eq(whitelist_type, &two) {
        tier = WLType::Two;
    } else if bytes_eq(whitelist_type, &three) {
        tier = WLType::Three;
    } else if bytes_eq(whitelist_type, &four) {
        tier = WLType::Four;
    } else {
        return Err(TarsError::InvalidWLType);
    }
    let schedule = match tier {
        WLType::One => config.whitelist_schedule.wl_start_time_1,
        WLType::Two => config.whitelist_schedule.wl_start_time_2,
        WLType::Three => config.whitelist_schedule.wl_start_time_3,
        WLType::Four => config.whitelist_schedule.wl_start_time_4,
        WLType::Null => config.whitelist_schedule.wl_start_time_1,
    };
    let spots: u8 = match tier {
        WLType::One => 1,
        WLType::Two => 2,
        WLType::Three => 3,
        WLType::Four => 4,
        WLType::Null => 0,
    };
    Ok(
        WalletWhitelist {
            tars_creator,
            whitelisted_address,
            whitelist_type: tier,
            number_of_whitelist_spots_per_user: spots,
            discounted_mint_price: schedule.discounted_mint_price,
            whitelist_mint_start_time: schedule.whitelist_mint_start_time,
        },
    )
}

/// Consume one whitelist spot after a successful mint.
pub fn use_whitelist_spot(ww: &mut WalletWhitelist) -> (r: Result<(), TarsError>)
    ensures
        match r {
            Ok(()) => old(ww).number_of_whitelist_spots_per_user > 0 && *final(ww)
                == WalletWhitelist {
                number_of_whitelist_spots_per_user: (
                old(ww).number_of_whitelist_spots_per_user - 1) as u8,
                ..*old(ww)
            },
            Err(e) => e == TarsError::NumericalOverflowError && old(
                ww,
            ).number_of_whitelist_spots_per_user == 0 && *final(ww) == *old(ww),
        },
{
    match ww.number_of_whitelist_spots_per_user.checked_sub(1) {
        Some(rest) => {
            ww.number_of_whitelist_spots_per_user = rest;
            Ok(())
        },
        None => Err(TarsError::NumericalOverflowError),
    }
}

} // verus!
