//! The mint eligibility gates.
//!
//! A whitelist mint passes a fixed, short-circuiting chain of checks:
//! tier start time, remaining spots, a fresh metadata account, a known
//! randomness account, a trusted calling program, the trailing
//! set-collection call when a collection is attached, an allow-list
//! over every instruction in the transaction, the end condition, the
//! identity gateway, the whitelist token, remaining supply, and the
//! payment balance. Most refusals collapse into the one public
//! `TarsNotLiveForWL` code on purpose: a rejected caller learns nothing
//! about which gate tripped.
//!
//! The gates decide over a snapshot of plain values; the host gathers
//! the snapshot, performs the returned plan (burn, payment, the calls
//! into the metadata program) and panics on a malformed call exactly
//! where the runtime would.

use vstd::prelude::*;
use crate::errors::TarsError;
use crate::features::{feature_active, is_feature_active, COLLECTIONS_FEATURE_INDEX};
use crate::keys::{cmp_pubkeys, key_eq, Pubkey};
use crate::state::{
    EndSettingType, Tars, WalletWhitelist, WhitelistMintMode, WhitelistMintSettings,
};
use crate::sysvar::TransactionView;

verus! {

/// Seconds before which a gateway token must not expire, measured
/// from the public go-live time.
pub const EXPIRE_OFFSET: i64 = 600;

/// The deployment addresses the gates compare against.
#[derive(Clone, Copy, Debug)]
pub struct KnownKeys {
    /// This program itself.
    pub self_program: Pubkey,
    /// First trusted caller.
    pub gumdrop: Pubkey,
    /// Second trusted caller.
    pub cupcake: Pubkey,
    /// The token program.
    pub token_program: Pubkey,
    /// The system program.
    pub system_program: Pubkey,
    /// The associated-token-account program.
    pub associated_token_program: Pubkey,
    /// The slot-hashes account that seeds randomness.
    pub slot_hashes_sysvar: Pubkey,
    /// Its deprecated predecessor, still accepted.
    pub deprecated_block_hashes: Pubkey,
}

/// How the mint is to be paid.
#[derive(Clone, Copy, Debug, PartialEq, Eq, Structural)]
pub enum PaymentKind {
    Token,
    Native,
}

/// Facts about the payment source: the minter's token account for the
/// pool's payment mint (or the error its validation produced), or the
/// minter's native balance.
#[derive(Clone, Copy, Debug)]
pub enum PaymentFacts {
    Token(Result<u64, TarsError>),
    Native(u64),
}

/// Everything the gates read about one mint attempt.
#[derive(Clone, Copy, Debug)]
pub struct MintRequest {
    /// The clock's current timestamp.
    pub now: i64,
    /// The minting wallet.
    pub minter: Pubkey,
    /// Whether the target metadata account holds no data yet.
    pub metadata_empty: bool,
    /// Key of the randomness account handed in.
    pub slot_hashes_key: Pubkey,
    /// How many optional accounts came with the call.
    pub remaining_accounts: usize,
    /// What the identity-gateway collaborator reported for the
    /// presented token (including the expiry rule).
    pub gateway_verify_ok: bool,
    /// Balance of the minter's whitelist token account, when the
    /// supplied account is the minter's account for the whitelist
    /// mint; `None` when it is not.
    pub whitelist_token_amount: Option<u64>,
    /// Whether the supplied burn mint is the whitelist mint.
    pub whitelist_mint_key_matches: bool,
    /// The payment source.
    pub payment: PaymentFacts,
}

/// What a passed eligibility check commits the host to.
#[derive(Clone, Copy, Debug)]
pub struct MintPlan {
    /// The price to collect.
    pub price: u64,
    /// Whether one whitelist token is to be burned.
    pub burn_whitelist_token: bool,
    /// The payment medium.
    pub payment: PaymentKind,
}

/// A 64-bit timestamp field reinterpreted as signed, as the gates
/// compare it.
pub open spec fn wrap_i64(x: u64) -> int {
    if x <= i64::MAX {
        x as int
    } else {
        x as int - 0x1_0000_0000_0000_0000
    }
}

/// Reinterpret an unsigned timestamp field as signed.
pub fn u64_as_signed(x: u64) -> (r: i64)
    ensures
        r as int == wrap_i64(x),
{
    if x <= 0x7fff_ffff_ffff_ffff {
        x as i64
    } else {
        let y = x - 0x8000_0000_0000_0000;
        (y as i64) + i64::MIN
    }
}

/// The caller programs that may invoke a mint.
pub open spec fn origin_allowed(pid: Pubkey, keys: KnownKeys) -> bool {
    ||| key_eq(pid, keys.self_program)
    ||| key_eq(pid, keys.gumdrop)
    ||| key_eq(pid, keys.cupcake)
}

/// The programs any instruction of the transaction may target.
pub open spec fn program_allowed(pid: Pubkey, keys: KnownKeys) -> bool {
    ||| key_eq(pid, keys.self_program)
    ||| key_eq(pid, keys.token_program)
    ||| key_eq(pid, keys.system_program)
    ||| key_eq(pid, keys.associated_token_program)
}

/// Every instruction in the transaction targets an allowed program.
pub open spec fn all_programs_allowed(txv: TransactionView, keys: KnownKeys) -> bool {
    forall|k: int|
        0 <= k < txv.instructions@.len() ==> program_allowed(
            (#[trigger] txv.instructions@[k]).program_id,
            keys,
        )
}

/// Leading bytes that mark the set-collection call.
pub open spec fn set_collection_discriminator() -> Seq<u8> {
    seq![103u8, 17u8, 200u8, 25u8, 118u8, 95u8, 125u8, 61u8]
}

/// The trailing-instruction rule: if an instruction follows this one,
/// it must be this program's set-collection call and must be the last;
/// if none follows, a pool with a collection attached refuses to mint.
pub open spec fn collection_gate(tars: Tars, txv: TransactionView, keys: KnownKeys) -> Option<
    TarsError,
> {
    let cur = txv.current_index as int;
    if cur + 1 < txv.instructions@.len() {
        let nx = txv.instructions@[cur + 1];
        if !key_eq(nx.program_id, keys.self_program) || nx.data@.len() < 8 || nx.data@.subrange(
            0,
            8,
        ) != set_collection_discriminator() || cur + 2 < txv.instructions@.len() {
            Some(TarsError::SuspiciousTransaction)
        } else {
            None
        }
    } else {
        if feature_active(tars.data.uuid@, COLLECTIONS_FEATURE_INDEX as u8) {
            Some(TarsError::TarsNotLiveForWL)
        } else {
            None
        }
    }
}

/// The end condition: a dated sale refuses past its date, a capped
/// sale past its cap, with the pool authority exempt (an exhausted cap
/// tells the authority the pool is empty).
pub open spec fn end_settings_gate(tars: Tars, req: MintRequest) -> Option<TarsError> {
    match tars.data.end_settings {
        None => None,
        Some(es) => match es.end_setting_type {
            EndSettingType::Date => {
                if req.now > wrap_i64(es.number) && !key_eq(req.minter, tars.authority) {
                    Some(TarsError::TarsNotLiveForWL)
                } else {
                    None
                }
            },
            EndSettingType::Amount => {
                if tars.items_redeemed >= es.number {
                    if !key_eq(req.minter, tars.authority) {
                        Some(TarsError::TarsNotLiveForWL)
                    } else {
                        Some(TarsError::TarsEmpty)
                    }
                } else {
                    None
                }
            },
        },
    }
}

/// The identity gateway: when configured, the token account must be
/// supplied (with the gateway program and expiry-feature accounts when
/// tokens expire on use) and the collaborator's verification must
/// pass.
pub open spec fn gateway_gate(tars: Tars, req: MintRequest) -> Option<TarsError> {
    match tars.data.gatekeeper {
        None => None,
        Some(gk) => {
            if req.remaining_accounts < 1 {
                Some(TarsError::TarsNotLiveForWL)
            } else if gk.expire_on_use {
                if req.remaining_accounts < 2 {
                    Some(TarsError::GatewayAppMissing)
                } else if req.remaining_accounts < 3 {
                    Some(TarsError::NetworkExpireFeatureMissing)
                } else if !req.gateway_verify_ok {
                    Some(TarsError::TarsNotLiveForWL)
                } else {
                    None
                }
            } else if !req.gateway_verify_ok {
                Some(TarsError::TarsNotLiveForWL)
            } else {
                None
            }
        },
    }
}

/// The ordinary go-live rule: the authority may always mint; everyone
/// else waits for a scheduled go-live time.
pub open spec fn go_live_ok(tars: Tars, req: MintRequest) -> bool {
    ||| key_eq(req.minter, tars.authority)
    ||| (tars.data.go_live_date matches Some(d) && req.now >= d)
}

/// The go-live rule inside the whitelist branch, where a presale
/// whitelist may mint early.
pub open spec fn whitelist_go_live_ok(
    tars: Tars,
    ws: WhitelistMintSettings,
    req: MintRequest,
) -> bool {
    ||| key_eq(req.minter, tars.authority)
    ||| ws.presale
    ||| (tars.data.go_live_date matches Some(d) && req.now >= d)
}

/// The whitelist branch: a positive token balance activates early
/// access and the discount (burning the token when so configured); a
/// zero or missing balance falls back to the ordinary go-live rule
/// unless the whitelist is forced (no discount, no presale). Returns
/// the discounted price, if one applies, and whether to burn.
pub open spec fn whitelist_gate(tars: Tars, req: MintRequest) -> Result<
    (Option<u64>, bool),
    TarsError,
> {
    match tars.data.whitelist_mint_settings {
        None => {
            if go_live_ok(tars, req) {
                Ok((None::<u64>, false))
            } else {
                Err(TarsError::TarsNotLiveForWL)
            }
        },
        Some(ws) => match req.whitelist_token_amount {
            Some(amount) => {
                if amount > 0 {
                    if !whitelist_go_live_ok(tars, ws, req) {
                        Err(TarsError::TarsNotLiveForWL)
                    } else if ws.mode == WhitelistMintMode::BurnEveryTime
                        && !req.whitelist_mint_key_matches {
                        Err(TarsError::TarsNotLiveForWL)
                    } else {
                        Ok((ws.discount_price, ws.mode == WhitelistMintMode::BurnEveryTime))
                    }
                } else {
                    if ws.discount_price is None && !ws.presale {
                        Err(TarsError::TarsNotLiveForWL)
                    } else if !go_live_ok(tars, req) {
                        Err(TarsError::TarsNotLiveForWL)
                    } else {
                        Ok((None::<u64>, false))
                    }
                }
            },
            None => {
                if ws.discount_price is None && !ws.presale {
                    Err(TarsError::TarsNotLiveForWL)
                } else if !go_live_ok(tars, req) {
                    Err(TarsError::TarsNotLiveForWL)
                } else {
                    Ok((None::<u64>, false))
                }
            },
        },
    }
}

/// The whole gate chain, in its fixed order.
pub open spec fn spec_evaluate(
    tars: Tars,
    ww: WalletWhitelist,
    txv: TransactionView,
    keys: KnownKeys,
    req: MintRequest,
) -> Result<MintPlan, TarsError> {
    if req.now < wrap_i64(ww.whitelist_mint_start_time) {
        Err(TarsError::WLMintNotStarted)
    } else if ww.number_of_whitelist_spots_per_user == 0 {
        Err(TarsError::NoWhitelistSpots)
    } else if !req.metadata_empty {
        Err(TarsError::MetadataAccountMustBeEmpty)
    } else if !key_eq(req.slot_hashes_key, keys.slot_hashes_sysvar) && !key_eq(
        req.slot_hashes_key,
        keys.deprecated_block_hashes,
    ) {
        Err(TarsError::IncorrectSlotHashesPubkey)
    } else if !origin_allowed(txv.instructions@[txv.current_index as int].program_id, keys) {
        Err(TarsError::TarsNotLiveForWL)
    } else if collection_gate(tars, txv, keys) is Some {
        Err(collection_gate(tars, txv, keys)->Some_0)
    } else if !all_programs_allowed(txv, keys) {
        Err(TarsError::TarsNotLiveForWL)
    } else if end_settings_gate(tars, req) is Some {
        Err(end_settings_gate(tars, req)->Some_0)
    } else if gateway_gate(tars, req) is Some {
        Err(gateway_gate(tars, req)->Some_0)
    } else {
        match whitelist_gate(tars, req) {
            Err(e) => Err(e),
            Ok(pricing) => {
                let price = match pricing.0 {
                    Some(dp) => dp,
                    None => ww.discounted_mint_price,
                };
                if tars.items_redeemed >= tars.data.items_available {
                    Err(TarsError::TarsNotLiveForWL)
                } else {
                    match req.payment {
                        PaymentFacts::Token(facts) => match facts {
                            Err(e) => Err(e),
                            Ok(amount) => {
                                if amount < price {
                                    Err(TarsError::NotEnoughTokens)
                                } else {
                                    Ok(
                                        MintPlan {
                                            price,
                                            burn_whitelist_token: pricing.1,
                                            payment: PaymentKind::Token,
                                        },
                                    )
                                }
                            },
                        },
                        PaymentFacts::Native(lamports) => {
                            if lamports < price {
                                Err(TarsError::NotEnoughSOL)
                            } else {
                                Ok(
                                    MintPlan {
                                        price,
                                        burn_whitelist_token: pricing.1,
                                        payment: PaymentKind::Native,
                                    },
                                )
                            }
                        },
                    }
                }
            },
        }
    }
}

/// Whether the data opens with the set-collection discriminator.
fn has_discriminator(data: &Vec<u8>) -> (r: bool)
    ensures
        r == (data@.len() >= 8 && data@.subrange(0, 8) == set_collection_discriminator()),
{
    if data.len() < 8 {
        return false;
    }
    let r = data[0] == 103 && data[1] == 17 && data[2] == 200 && data[3] == 25 && data[4] == 118
        && data[5] == 95 && data[6] == 125 && data[7] == 61;
    proof {
        if r {
            assert(data@.subrange(0, 8) =~= set_collection_discriminator());
        } else {
            assert(data@.subrange(0, 8) != set_collection_discriminator()) by {
                let s = data@.subrange(0, 8);
                let d = set_collection_discriminator();
                if s == d {
                    assert(s[0] == 103 && s[1] == 17 && s[2] == 200 && s[3] == 25 && s[4] == 118
                        && s[5] == 95 && s[6] == 125 && s[7] == 61);
                }
            }
        }
    }
    r
}

/// Run the trailing-instruction rule.
fn collection_gate_exec(tars: &Tars, txv: &TransactionView, keys: &KnownKeys) -> (r: Option<
    TarsError,
>)
    requires
        tars.data.uuid@.len() == 6,
        txv.current_index < txv.instructions@.len(),
    ensures
        r == collection_gate(*tars, *txv, *keys),
{
    let cur = txv.current_index as usize;
    let count = txv.instructions.len();
    if cur + 1 < count {
        let nx = &txv.instructions[cur + 1];
        if !cmp_pubkeys(&nx.program_id, &keys.self_program) || !has_discriminator(&nx.data) || cur
            + 2 < count {
            Some(TarsError::SuspiciousTransaction)
        } else {
            None
        }
    } else {
        if is_feature_active(&tars.data.uuid, COLLECTIONS_FEATURE_INDEX) {
            Some(TarsError::TarsNotLiveForWL)
        } else {
            None
        }
    }
}

/// Check every instruction of the transaction against the allow-list.
#[verifier::loop_isolation(false)]
fn scan_programs(txv: &TransactionView, keys: &KnownKeys) -> (r: bool)
    ensures
        r == all_programs_allowed(*txv, *keys),
{
    let count = txv.instructions.len();
    let mut k: usize = 0;
    while k < count
        invariant
            k <= count,
            forall|j: int|
                0 <= j < k ==> program_allowed((#[trigger] txv.instructions@[j]).program_id, *keys),
        decreases count - k,
    {
        let pid = &txv.instructions[k].program_id;
        if !cmp_pubkeys(pid, &keys.self_program) && !cmp_pubkeys(pid, &keys.token_program)
            && !cmp_pubkeys(pid, &keys.system_program) && !cmp_pubkeys(
            pid,
            &keys.associated_token_program,
        ) {
            return false;
        }
        k = k + 1;
    }
    true
}

/// Run the end-condition rule.
fn end_settings_gate_exec(tars: &Tars, req: &MintRequest) -> (r: Option<TarsError>)
    ensures
        r == end_settings_gate(*tars, *req),
{
    match &tars.data.end_settings {
        None => None,
        Some(es) => match es.end_setting_type {
            EndSettingType::Date => {
                if req.now > u64_as_signed(es.number) && !cmp_pubkeys(
                    &req.minter,
                    &tars.authority,
                ) {
                    Some(TarsError::TarsNotLiveForWL)
                } else {
                    None
                }
            },
            EndSettingType::Amount => {
                if tars.items_redeemed >= es.number {
                    if !cmp_pubkeys(&req.minter, &tars.authority) {
                        Some(TarsError::TarsNotLiveForWL)
                    } else {
                        Some(TarsError::TarsEmpty)
                    }
                } else {
                    None
                }
            },
        },
    }
}

/// Run the identity-gateway rule.
fn gateway_gate_exec(tars: &Tars, req: &MintRequest) -> (r: Option<TarsError>)
    ensures
        r == gateway_gate(*tars, *req),
{
    match &tars.data.gatekeeper {
        None => None,
        Some(gk) => {
            if req.remaining_accounts < 1 {
                Some(TarsError::TarsNotLiveForWL)
            } else if gk.expire_on_use {
                if req.remaining_accounts < 2 {
                    Some(TarsError::GatewayAppMissing)
                } else if req.remaining_accounts < 3 {
                    Some(TarsError::NetworkExpireFeatureMissing)
                } else if !req.gateway_verify_ok {
                    Some(TarsError::TarsNotLiveForWL)
                } else {
                    None
                }
            } else if !req.gateway_verify_ok {
                Some(TarsError::TarsNotLiveForWL)
            } else {
                None
            }
        },
    }
}

/// Run the ordinary go-live rule.
fn go_live_check(tars: &Tars, req: &MintRequest) -> (r: bool)
    ensures
        r == go_live_ok(*tars, *req),
{
    if cmp_pubkeys(&req.minter, &tars.authority) {
        return true;
    }
    match &tars.data.go_live_date {
        Some(d) => req.now >= *d,
        None => false,
    }
}

/// Run the whitelist branch.
fn whitelist_gate_exec(tars: &Tars, req: &MintRequest) -> (r: Result<
    (Option<u64>, bool),
    TarsError,
>)
    ensures
        r == whitelist_gate(*tars, *req),
{
    match &tars.data.whitelist_mint_settings {
        None => {
            if go_live_check(tars, req) {
                Ok((None, false))
            } else {
                Err(TarsError::TarsNotLiveForWL)
            }
        },
        Some(ws) => match req.whitelist_token_amount {
            Some(amount) => {
                if amount > 0 {
                    let early_ok = cmp_pubkeys(&req.minter, &tars.authority) || ws.presale || (
                    match &tars.data.go_live_date {
                        Some(d) => req.now >= *d,
                        None => false,
                    });
                    if !early_ok {
                        Err(TarsError::TarsNotLiveForWL)
                    } else if ws.mode == WhitelistMintMode::BurnEveryTime
                        && !req.whitelist_mint_key_matches {
                        Err(TarsError::TarsNotLiveForWL)
                    } else {
                        Ok((ws.discount_price, ws.mode == WhitelistMintMode::BurnEveryTime))
                    }
                } else {
                    if ws.discount_price.is_none() && !ws.presale {
                        Err(TarsError::TarsNotLiveForWL)
                    } else if !go_live_check(tars, req) {
                        Err(TarsError::TarsNotLiveForWL)
                    } else {
                        Ok((None, false))
                    }
                }
            },
            None => {
                if ws.discount_price.is_none() && !ws.presale {
                    Err(TarsError::TarsNotLiveForWL)
                } else if !go_live_check(tars, req) {
                    Err(TarsError::TarsNotLiveForWL)
                } else {
                    Ok((None, false))
                }
            },
        },
    }
}

/// Decide one whitelist mint attempt: run the whole gate chain over
/// the snapshot and either refuse with the first failing gate's code
/// or commit the host to a price, a payment medium and possibly a
/// whitelist-token burn.
pub fn evaluate_whitelist_mint(
    tars: &Tars,
    ww: &WalletWhitelist,
    txv: &TransactionView,
    keys: &KnownKeys,
    req: &MintRequest,
) -> (r: Result<MintPlan, TarsError>)
    requires
        tars.data.uuid@.len() == 6,
        txv.current_index < txv.instructions@.len(),
        (tars.token_mint is Some) <==> (req.payment is Token),
    ensures
        r == spec_evaluate(*tars, *ww, *txv, *keys, *req),
{
    if req.now < u64_as_signed(ww.whitelist_mint_start_time) {
        return Err(TarsError::WLMintNotStarted);
    }
    if ww.number_of_whitelist_spots_per_user == 0 {
        return Err(TarsError::NoWhitelistSpots);
    }
    if !req.metadata_empty {
        return Err(TarsError::MetadataAccountMustBeEmpty);
    }
    if !cmp_pubkeys(&req.slot_hashes_key, &keys.slot_hashes_sysvar) && !cmp_pubkeys(
        &req.slot_hashes_key,
        &keys.deprecated_block_hashes,
    ) {
        return Err(TarsError::IncorrectSlotHashesPubkey);
    }
    let cur_pid = &txv.instructions[txv.current_index as usize].program_id;
    if !cmp_pubkeys(cur_pid, &keys.self_program) && !cmp_pubkeys(cur_pid, &keys.gumdrop)
        && !cmp_pubkeys(cur_pid, &keys.cupcake) {
        return Err(TarsError::TarsNotLiveForWL);
    }
    if let Some(e) = collection_gate_exec(tars, txv, keys) {
        return Err(e);
    }
    if !scan_programs(txv, keys) {
        return Err(TarsError::TarsNotLiveForWL);
    }
    if let Some(e) = end_settings_gate_exec(tars, req) {
        return Err(e);
    }
    if let Some(e) = gateway_gate_exec(tars, req) {
        return Err(e);
    }
    let pricing = match whitelist_gate_exec(tars, req) {
        Ok(p) => p,
        Err(e) => {
            return Err(e);
        },
    };
    let price = match pricing.0 {
        Some(dp) => dp,
        None => ww.discounted_mint_price,
    };
    if tars.items_redeemed >= tars.data.items_available {
        return Err(TarsError::TarsNotLiveForWL);
    }
    match req.payment {
        PaymentFacts::Token(facts) => match facts {
            Err(e) => Err(e),
            Ok(amount) => {
                if amount < price {
                    Err(TarsError::NotEnoughTokens)
                } else {
                    Ok(
                        MintPlan {
                            price,
                            burn_whitelist_token: pricing.1,
                            payment: PaymentKind::Token,
                        },
                    )
                }
            },
        },
        PaymentFacts::Native(lamports) => {
            if lamports < price {
                Err(TarsError::NotEnoughSOL)
            } else {
                Ok(
                    MintPlan {
                        price,
                        burn_whitelist_token: pricing.1,
                        payment: PaymentKind::Native,
                    },
                )
            }
        },
    }
}

} // verus!
