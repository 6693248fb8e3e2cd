//! Committing a mint: the randomness-derived start index, the expiry
//! rule for gateway tokens, and the arguments of the metadata calls.

use vstd::prelude::*;
use crate::eligibility::{wrap_i64, EXPIRE_OFFSET};
use crate::errors::TarsError;
use crate::keys::Pubkey;
use crate::state::{Creator, Tars};

verus! {

/// The 64-bit little-endian value at `pos`.
pub open spec fn u64_le_at(s: Seq<u8>, pos: int) -> int {
    s[pos] + 0x100 * s[pos + 1] + 0x1_0000 * s[pos + 2] + 0x100_0000 * s[pos + 3] + 0x1_0000_0000
        * s[pos + 4] + 0x100_0000_0000 * s[pos + 5] + 0x1_0000_0000_0000 * s[pos + 6]
        + 0x100_0000_0000_0000 * s[pos + 7]
}

/// Offset of the slot-hash value that seeds the randomness: past the
/// entry count and the first slot number.
pub const RANDOM_VALUE_OFFSET: usize = 12;

/// Read the pseudo-random seed from the slot-hashes account data.
pub fn read_random_seed(data: &Vec<u8>) -> (r: u64)
    requires
        RANDOM_VALUE_OFFSET + 8 <= data@.len(),
    ensures
        r == u64_le_at(data@, RANDOM_VALUE_OFFSET as int),
{
    let blen = data.len();
    let b0 = data[RANDOM_VALUE_OFFSET] as u64;
    let b1 = data[RANDOM_VALUE_OFFSET + 1] as u64;
    let b2 = data[RANDOM_VALUE_OFFSET + 2] as u64;
    let b3 = data[RANDOM_VALUE_OFFSET + 3] as u64;
    let b4 = data[RANDOM_VALUE_OFFSET + 4] as u64;
    let b5 = data[RANDOM_VALUE_OFFSET + 5] as u64;
    let b6 = data[RANDOM_VALUE_OFFSET + 6] as u64;
    let b7 = data[RANDOM_VALUE_OFFSET + 7] as u64;
    b0 + 0x100 * b1 + 0x1_0000 * b2 + 0x100_0000 * b3 + 0x1_0000_0000 * b4 + 0x100_0000_0000 * b5
        + 0x1_0000_0000_0000 * b6 + 0x100_0000_0000_0000 * b7
}

/// Reduce the random seed to a start index below the pool's capacity;
/// a pool of capacity zero has no index.
pub fn derive_start_index(seed: u64, items_available: u64) -> (r: Result<u64, TarsError>)
    ensures
        match r {
            Ok(idx) => items_available > 0 && idx == seed as int % items_available as int && idx
                < items_available,
            Err(e) => e == TarsError::NumericalOverflowError && items_available == 0,
        },
{
    match seed.checked_rem(items_available) {
        Some(idx) => Ok(idx),
        None => Err(TarsError::NumericalOverflowError),
    }
}

/// The expiry rule applied to a presented gateway token: when the
/// sale is public (not a presale) and has a go-live time, a token
/// expiring within `EXPIRE_OFFSET` seconds of that time was provisioned
/// too early and is refused.
pub open spec fn gateway_expiry_invalid(tars: Tars, expire_time: Option<i64>) -> bool {
    &&& tars.data.go_live_date is Some
    &&& tars.data.whitelist_mint_settings is Some
    &&& !tars.data.whitelist_mint_settings->Some_0.presale
    &&& expire_time is Some
    &&& expire_time->Some_0 < tars.data.go_live_date->Some_0 + EXPIRE_OFFSET
}

/// Judge a gateway token's expiry time against the pool's schedule.
pub fn check_gateway_expiry(tars: &Tars, expire_time: Option<i64>) -> (r: Result<(), TarsError>)
    requires
        tars.data.go_live_date matches Some(d) ==> d + EXPIRE_OFFSET <= i64::MAX,
    ensures
        match r {
            Ok(()) => !gateway_expiry_invalid(*tars, expire_time),
            Err(e) => e == TarsError::GatewayTokenExpireTimeInvalid && gateway_expiry_invalid(
                *tars,
                expire_time,
            ),
        },
{
    if let Some(go_live) = tars.data.go_live_date {
        if let Some(ws) = &tars.data.whitelist_mint_settings {
            if !ws.presale {
                if let Some(expire) = expire_time {
                    if expire < go_live + EXPIRE_OFFSET {
                        return Err(TarsError::GatewayTokenExpireTimeInvalid);
                    }
                }
            }
        }
    }
    Ok(())
}

/// The creator list a minted token carries: the pool's derived signer
/// first, verified and without royalties, then the configured
/// creators, unverified.
pub open spec fn planned_creators(tars: Tars, pool_creator: Pubkey) -> Seq<Creator> {
    seq![Creator { address: pool_creator, verified: true, share: 0u8 }] + tars.data.creators@.map(
        |i: int, c: Creator| Creator { verified: false, ..c },
    )
}

/// The update authority the metadata keeps after the mint: the pool's
/// own when it retains authority, the minting signer's otherwise.
pub open spec fn planned_update_authority(tars: Tars, update_authority_signer: Pubkey) -> Pubkey {
    if tars.data.retain_authority {
        tars.authority
    } else {
        update_authority_signer
    }
}

/// Arguments of the three metadata calls that commit a mint.
pub struct MintCommit {
    /// Creators of the minted token.
    pub creators: Vec<Creator>,
    /// Largest edition count the master edition allows.
    pub max_supply: u64,
    /// Update authority the metadata is handed to.
    pub new_update_authority: Pubkey,
    /// Whether the metadata stays mutable.
    pub is_mutable: bool,
    /// Royalty basis points.
    pub seller_fee_basis_points: u16,
}

/// Assemble the arguments of the metadata calls for one mint.
#[verifier::loop_isolation(false)]
pub fn build_mint_commit(tars: &Tars, pool_creator: Pubkey, update_authority_signer: Pubkey) -> (r:
    MintCommit)
    ensures
        r.creators@ == planned_creators(*tars, pool_creator),
        r.max_supply == tars.data.max_supply,
        r.new_update_authority == planned_update_authority(*tars, update_authority_signer),
        r.is_mutable == tars.data.is_mutable,
        r.seller_fee_basis_points == tars.data.seller_fee_basis_points,
{
    let mut creators: Vec<Creator> = Vec::new();
    creators.push(Creator { address: pool_creator, verified: true, share: 0 });
    let count = tars.data.creators.len();
    let mut i: usize = 0;
    while i < count
        invariant
            i <= count,
            creators@.len() == i + 1,
            creators@[0] == (Creator { address: pool_creator, verified: true, share: 0u8 }),
            forall|j: int|
                0 <= j < i ==> #[trigger] creators@[j + 1] == (Creator {
                    verified: false,
                    ..tars.data.creators@[j]
                }),
        decreases count - i,
    {
        let c = &tars.data.creators[i];
        creators.push(Creator { address: c.address, verified: false, share: c.share });
        i = i + 1;
    }
    proof {
        let pc = planned_creators(*tars, pool_creator);
        let mapped = tars.data.creators@.map(
            |i: int, c: Creator| Creator { verified: false, ..c },
        );
        assert(creators@.len() == pc.len());
        assert forall|j: int| 0 <= j < pc.len() implies creators@[j] == pc[j] by {
            if j > 0 {
                assert(pc[j] == mapped[j - 1]);
                assert(mapped[j - 1] == (Creator {
                    verified: false,
                    ..tars.data.creators@[j - 1]
                }));
                assert(creators@[(j - 1) + 1] == (Creator {
                    verified: false,
                    ..tars.data.creators@[j - 1]
                }));
            }
        }
        assert(creators@ =~= pc);
    }
    let new_update_authority = if tars.data.retain_authority {
        tars.authority
    } else {
        update_authority_signer
    };
    MintCommit {
        creators,
        max_supply: tars.data.max_supply,
        new_update_authority,
        is_mutable: tars.data.is_mutable,
        seller_fee_basis_points: tars.data.seller_fee_basis_points,
    }
}

} // verus!
