//! One whole whitelist mint step, from gate chain to counters.
//!
//! After the host has parsed the transaction view and gathered the
//! snapshot, everything the mint decides and mutates happens here in
//! order: the eligibility gates, the randomness-derived start index,
//! the slot allocation and line resolution, the redemption counter and
//! the whitelist spot. Only the outward effects of the returned plan
//! (payment, burn, the metadata calls) remain with the host, and the
//! runtime's rollback covers any of their failures.

use vstd::prelude::*;
use crate::allocator::probe_space;
use crate::commit::{read_random_seed, u64_le_at, RANDOM_VALUE_OFFSET};
use crate::eligibility::{
    evaluate_whitelist_mint, spec_evaluate, KnownKeys, MintPlan, MintRequest,
};
use crate::errors::TarsError;
use crate::lines::{get_config_line, hidden_name, resolution_ok};
use crate::state::{ConfigLine, Tars, WalletWhitelist};
use crate::update::redeem_one;
use crate::whitelist::use_whitelist_spot;

verus! {

/// A pool that passed every gate still has supply and the allowance
/// still has a spot: the chain checks both.
proof fn lemma_evaluate_ok_invariants(
    tars: Tars,
    ww: WalletWhitelist,
    txv: crate::sysvar::TransactionView,
    keys: KnownKeys,
    req: MintRequest,
)
    requires
        spec_evaluate(tars, ww, txv, keys, req) is Ok,
    ensures
        tars.items_redeemed < tars.data.items_available,
        ww.number_of_whitelist_spots_per_user > 0,
{
}

/// Both counters advance by one step.
pub open spec fn counters_advanced(
    tars0: Tars,
    tars1: Tars,
    ww0: WalletWhitelist,
    ww1: WalletWhitelist,
) -> bool {
    &&& tars1 == (Tars { items_redeemed: (tars0.items_redeemed + 1) as u64, ..tars0 })
    &&& ww1 == (WalletWhitelist {
        number_of_whitelist_spots_per_user: (ww0.number_of_whitelist_spots_per_user - 1) as u8,
        ..ww0
    })
}

/// Run one whitelist mint attempt against the pool: every gate, the
/// allocation, and both counters. On refusal everything but the
/// already-claimed slot bit is untouched; on success the returned line
/// and plan are exactly what the snapshot and buffer determine, the
/// redemption counter stays within capacity, and one whitelist spot is
/// consumed.
pub fn whitelist_mint_step(
    tars: &mut Tars,
    ww: &mut WalletWhitelist,
    buf: &mut Vec<u8>,
    txv: &crate::sysvar::TransactionView,
    keys: &KnownKeys,
    req: &MintRequest,
    slot_hashes_data: &Vec<u8>,
) -> (r: Result<(ConfigLine, MintPlan), TarsError>)
    requires
        old(tars).data.uuid@.len() == 6,
        old(tars).items_redeemed <= old(tars).data.items_available,
        txv.current_index < txv.instructions@.len(),
        (old(tars).token_mint is Some) <==> (req.payment is Token),
        slot_hashes_data@.len() >= RANDOM_VALUE_OFFSET + 8,
        old(tars).data.hidden_settings is None ==> {
            &&& old(tars).data.items_available <= usize::MAX
            &&& probe_space(old(buf)@, old(tars).data.items_available as int)
        },
    ensures
        final(tars).items_redeemed <= final(tars).data.items_available,
        match spec_evaluate(*old(tars), *old(ww), *txv, *keys, *req) {
            Err(e) => r == Err::<(ConfigLine, MintPlan), TarsError>(e) && *final(tars) == *old(
                tars,
            ) && *final(ww) == *old(ww) && final(buf)@ == old(buf)@,
            Ok(plan) => {
                let seed = u64_le_at(slot_hashes_data@, RANDOM_VALUE_OFFSET as int);
                let n = old(tars).data.items_available as int;
                match old(tars).data.hidden_settings {
                    Some(hs) => {
                        &&& final(buf)@ == old(buf)@
                        &&& counters_advanced(*old(tars), *final(tars), *old(ww), *final(ww))
                        &&& (r matches Ok(p) && p.0.name@ == hidden_name(
                            hs.name@,
                            old(tars).items_redeemed as nat,
                        ) && p.0.uri@ == hs.uri@ && p.1 == plan)
                    },
                    None => {
                        &&& resolution_ok(
                            old(buf)@,
                            final(buf)@,
                            n,
                            seed % n,
                            match r {
                                Ok(p) => Ok(p.0),
                                Err(e) => Err(e),
                            },
                        )
                        &&& (r matches Ok(p) ==> p.1 == plan && counters_advanced(
                            *old(tars),
                            *final(tars),
                            *old(ww),
                            *final(ww),
                        ))
                        &&& (r is Err ==> *final(tars) == *old(tars) && *final(ww) == *old(ww))
                    },
                }
            },
        },
{
    let plan = match evaluate_whitelist_mint(tars, ww, txv, keys, req) {
        Ok(p) => p,
        Err(e) => {
            return Err(e);
        },
    };
    proof {
        lemma_evaluate_ok_invariants(*tars, *ww, *txv, *keys, *req);
    }
    let seed = read_random_seed(slot_hashes_data);
    let start = match crate::commit::derive_start_index(seed, tars.data.items_available) {
        Ok(s) => s,
        Err(e) => {
            return Err(e);
        },
    };
    let mint_number = tars.items_redeemed;
    let line = match get_config_line(tars, buf, start as usize, mint_number) {
        Ok(l) => l,
        Err(e) => {
            return Err(e);
        },
    };
    redeem_one(tars);
    match use_whitelist_spot(ww) {
        Ok(()) => {},
        Err(e) => {
            return Err(e);
        },
    }
    Ok((line, plan))
}

} // verus!
