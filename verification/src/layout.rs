//! Byte layout of the pool account.
//!
//! The account is one flat buffer: a fixed-size serialized header, then a
//! 4-byte item count, then `items_available` fixed-size config-line
//! records, then two 4-byte fields around a reserved gap, then the taken
//! bitmask (one bit per item, eight per byte, most significant bit
//! first). This module is the single point of truth for every offset.

use vstd::prelude::*;
use crate::errors::TarsError;
use crate::state::TarsData;

verus! {

/// Longest name stored in a config line.
pub const MAX_NAME_LENGTH: usize = 32;

/// Longest URI stored in a config line.
pub const MAX_URI_LENGTH: usize = 200;

/// Length the token symbol is padded to.
pub const MAX_SYMBOL_LENGTH: usize = 10;

/// Most creators a minted token can carry, the pool's own signer
/// included.
pub const MAX_CREATOR_LIMIT: usize = 5;

/// Most creators a pool configuration may name.
pub const MAX_POOL_CREATORS: usize = 3;

/// One config-line record: a 4-byte taken-flag field, the name bytes,
/// a 4-byte reserved field, the URI bytes.
pub const CONFIG_LINE_SIZE: usize = 4 + 32 + 4 + 200;

/// Size of the serialized header that precedes the config-line array:
/// an 8-byte account tag; authority and wallet addresses (32 each); the
/// optional payment mint (1 + 32); the redeemed counter (8); then the
/// configuration at its largest: uuid (4 + 6), capacity (8), padded
/// symbol (4 + 10), fee basis points (2), max supply (8), two flags
/// (1 + 1), optional go-live date (1 + 8), optional end settings
/// (1 + 1 + 8), up to four creators (4 + 4 * 34), optional hidden
/// settings (1 + 4 + 32 + 4 + 200 + 32), optional whitelist settings
/// (1 + 1 + 32 + 1 + 1 + 8), optional gatekeeper (1 + 32 + 1).
pub const CONFIG_ARRAY_START: usize = 8 + 32 + 32 + 33 + 8 + 10 + 8 + 14 + 2 + 8 + 1 + 1 + 9 + 10
    + 140 + 273 + 44 + 34;

/// Byte offset of config-line record `i`.
pub open spec fn record_start(i: int) -> int {
    CONFIG_ARRAY_START + 4 + i * CONFIG_LINE_SIZE
}

/// Byte offset of the taken bitmask for a pool of capacity `n`.
pub open spec fn mask_start(n: int) -> int {
    CONFIG_ARRAY_START + 4 + n * CONFIG_LINE_SIZE + 4 + n / 8 + 4
}

/// Bytes the bitmask occupies for capacity `n`.
pub open spec fn mask_len(n: int) -> int {
    (n + 7) / 8
}

/// Total account size for capacity `n`; a hidden-settings pool stores
/// no lines and no bitmask, only the header.
pub open spec fn pool_space(n: int, hidden: bool) -> int {
    if hidden {
        CONFIG_ARRAY_START as int
    } else {
        CONFIG_ARRAY_START + 4 + n * CONFIG_LINE_SIZE + 8 + 2 * (n / 8 + 1)
    }
}

/// Record offsets are non-negative and grow with the index.
pub proof fn lemma_record_start_bounds(i: int)
    requires
        i >= 0,
    ensures
        record_start(i) >= CONFIG_ARRAY_START + 4,
        i * CONFIG_LINE_SIZE >= 0,
        record_start(i + 1) == record_start(i) + CONFIG_LINE_SIZE,
{
    assert(i * CONFIG_LINE_SIZE >= 0) by (nonlinear_arith)
        requires
            i >= 0,
    ;
    assert((i + 1) * CONFIG_LINE_SIZE == i * CONFIG_LINE_SIZE + CONFIG_LINE_SIZE)
        by (nonlinear_arith);
}

/// Every record of a pool of capacity `n` ends before the bitmask
/// begins.
pub proof fn lemma_records_before_mask(n: int, i: int)
    requires
        0 <= i < n,
    ensures
        record_start(i) + CONFIG_LINE_SIZE <= mask_start(n),
{
    assert((i + 1) * CONFIG_LINE_SIZE <= n * CONFIG_LINE_SIZE) by (nonlinear_arith)
        requires
            i + 1 <= n,
    ;
    assert((i + 1) * CONFIG_LINE_SIZE == i * CONFIG_LINE_SIZE + CONFIG_LINE_SIZE)
        by (nonlinear_arith);
    assert(n / 8 >= 0) by (nonlinear_arith)
        requires
            n > 0,
    ;
}

/// A buffer large enough to hold a non-hidden pool of capacity `n` also
/// holds the whole bitmask region.
pub proof fn lemma_pool_space_covers_mask(n: int)
    requires
        n >= 0,
    ensures
        mask_start(n) + mask_len(n) <= pool_space(n, false),
{
    assert((n + 7) / 8 <= n / 8 + 1) by (nonlinear_arith);
}

/// Account size needed for a pool with this configuration.
pub fn get_space_for_tars(data: &TarsData) -> (r: Result<usize, TarsError>)
    requires
        pool_space(data.items_available as int, data.hidden_settings is Some) <= usize::MAX,
    ensures
        r is Ok,
        r matches Ok(space) ==> space == pool_space(
            data.items_available as int,
            data.hidden_settings is Some,
        ),
{
    if data.hidden_settings.is_some() {
        Ok(CONFIG_ARRAY_START)
    } else {
        proof {
            assert(data.items_available as int <= data.items_available as int
                * CONFIG_LINE_SIZE) by (nonlinear_arith)
                requires
                    data.items_available >= 0,
            ;
        }
        let n = data.items_available as usize;
        Ok(CONFIG_ARRAY_START + 4 + n * CONFIG_LINE_SIZE + 8 + 2 * (n / 8 + 1))
    }
}

} // verus!
