//! The pool's data model: header, settings, whitelist records and the
//! config line a mint resolves to.
//!
//! Strings that the host stores (symbol, names, URIs) are kept as their
//! raw bytes: the pool account itself is one flat byte buffer and the
//! codec over it works byte-wise.

use vstd::prelude::*;
use crate::keys::Pubkey;

verus! {

/// How a sale ends: at a point in time, or after a number of redemptions.
#[derive(Clone, Copy, Debug, PartialEq, Eq, Structural)]
pub enum EndSettingType {
    Date,
    Amount,
}

/// An end condition for the sale.
#[derive(Clone, Copy, Debug)]
pub struct EndSettings {
    pub end_setting_type: EndSettingType,
    /// A timestamp for `Date`, a redemption count for `Amount`.
    pub number: u64,
}

/// What happens to a whitelist token when it is used.
#[derive(Clone, Copy, Debug, PartialEq, Eq, Structural)]
pub enum WhitelistMintMode {
    /// The token is consumed on every mint.
    BurnEveryTime,
    /// The token is only checked, never consumed.
    NeverBurn,
}

/// Token-gated whitelist configuration of a pool.
#[derive(Clone, Copy, Debug)]
pub struct WhitelistMintSettings {
    pub mode: WhitelistMintMode,
    /// The mint whose tokens grant whitelist access.
    pub mint: Pubkey,
    /// Whether whitelist holders may mint before the public go-live time.
    pub presale: bool,
    /// Price for whitelist holders, if discounted.
    pub discount_price: Option<u64>,
}

/// Identity-gateway requirement of a pool.
#[derive(Clone, Copy, Debug)]
pub struct GatekeeperConfig {
    /// The gateway network a presented token must belong to.
    pub gatekeeper_network: Pubkey,
    /// Whether the token is expired by the mint that uses it.
    pub expire_on_use: bool,
}

/// Mode in which no config lines are stored: every mint gets a generated
/// name and the shared URI, and a single hash stands for the full order.
#[derive(Clone, Debug)]
pub struct HiddenSettings {
    /// Prefix of every generated name.
    pub name: Vec<u8>,
    /// URI shared by every mint.
    pub uri: Vec<u8>,
    /// Hash of the real order, verified off-chain.
    pub hash: [u8; 32],
}

/// A royalty recipient.
#[derive(Clone, Copy, Debug)]
pub struct Creator {
    pub address: Pubkey,
    pub verified: bool,
    /// Share of royalties, in percent.
    pub share: u8,
}

/// The configurable part of a pool.
#[derive(Clone, Debug)]
pub struct TarsData {
    /// 6-byte identifier; its last byte doubles as a feature-flag bitset.
    pub uuid: Vec<u8>,
    /// Total capacity of the pool.
    pub items_available: u64,
    /// Token symbol, at most `MAX_SYMBOL_LENGTH` bytes before padding.
    pub symbol: Vec<u8>,
    pub seller_fee_basis_points: u16,
    pub max_supply: u64,
    pub is_mutable: bool,
    pub retain_authority: bool,
    /// Public sale start, if scheduled.
    pub go_live_date: Option<i64>,
    pub end_settings: Option<EndSettings>,
    pub creators: Vec<Creator>,
    pub hidden_settings: Option<HiddenSettings>,
    pub whitelist_mint_settings: Option<WhitelistMintSettings>,
    pub gatekeeper: Option<GatekeeperConfig>,
}

/// The pool header: configuration plus progress.
#[derive(Clone, Debug)]
pub struct Tars {
    pub authority: Pubkey,
    /// Destination of sale proceeds.
    pub wallet: Pubkey,
    /// Payment mint; `None` means payment in native funds.
    pub token_mint: Option<Pubkey>,
    /// Number of items minted so far.
    pub items_redeemed: u64,
    pub data: TarsData,
}

impl TarsData {
    /// Well-formedness of a pool configuration as stored.
    pub open spec fn wf(self) -> bool {
        &&& self.uuid@.len() == 6
        &&& self.symbol@.len() <= crate::layout::MAX_SYMBOL_LENGTH
        &&& self.creators@.len() <= crate::layout::MAX_POOL_CREATORS
    }
}

impl Tars {
    /// Well-formedness of a pool header.
    pub open spec fn wf(self) -> bool {
        &&& self.data.wf()
        &&& self.items_redeemed <= self.data.items_available
    }
}

/// One pre-loaded item: a name and a URI.
#[derive(Clone, Debug)]
pub struct ConfigLine {
    pub name: Vec<u8>,
    pub uri: Vec<u8>,
}

/// The four whitelist tiers, plus the invalid one.
#[derive(Clone, Copy, Debug, PartialEq, Eq, Structural)]
pub enum WLType {
    One,
    Two,
    Three,
    Four,
    Null,
}

/// Start time and price of one whitelist tier.
#[derive(Clone, Copy, Debug)]
pub struct WLStartTime {
    pub whitelist_mint_start_time: u64,
    pub discounted_mint_price: u64,
}

/// The per-creator schedule of the four whitelist tiers.
#[derive(Clone, Copy, Debug)]
pub struct WhitelistSchedule {
    pub wl_start_time_1: WLStartTime,
    pub wl_start_time_2: WLStartTime,
    pub wl_start_time_3: WLStartTime,
    pub wl_start_time_4: WLStartTime,
}

/// A creator's whitelist configuration.
#[derive(Clone, Copy, Debug)]
pub struct WhitelistConfig {
    pub tars_creator: Pubkey,
    pub whitelist_schedule: WhitelistSchedule,
}

/// One wallet's whitelist allowance, snapshotted from a tier of the
/// creator's schedule.
#[derive(Clone, Copy, Debug)]
pub struct WalletWhitelist {
    pub tars_creator: Pubkey,
    pub whitelisted_address: Pubkey,
    pub whitelist_type: WLType,
    pub number_of_whitelist_spots_per_user: u8,
    pub discounted_mint_price: u64,
    pub whitelist_mint_start_time: u64,
}

} // verus!
