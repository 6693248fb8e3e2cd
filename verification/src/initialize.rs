//! Creating a pool: configuration checks, symbol padding, and the
//! bitmask length field of a fresh buffer.
//!
//! Sizing the account and serializing the header are the host's job;
//! what is accepted, how the symbol is stored, and what the fresh
//! buffer's count field holds is decided here.

use vstd::prelude::*;
use vstd::pervasive::VecAdditionalExecFns;
use crate::errors::TarsError;
use crate::keys::{cmp_pubkeys, key_eq, Pubkey};
use crate::layout::{CONFIG_ARRAY_START, CONFIG_LINE_SIZE, MAX_POOL_CREATORS, MAX_SYMBOL_LENGTH};
use crate::state::{Tars, TarsData};

verus! {

/// Facts about the configured payment mint: the mint's address and
/// the mint recorded in the proceeds wallet's token account.
#[derive(Clone, Copy, Debug)]
pub struct PaymentMintFacts {
    pub mint: Pubkey,
    pub wallet_token_account_mint: Pubkey,
}

/// `k` zero bytes.
pub open spec fn zero_bytes(k: nat) -> Seq<u8> {
    Seq::new(k, |i: int| 0u8)
}

/// Build the pool header for a new pool: the identifier must be 6
/// bytes; a payment mint must match the proceeds wallet's token
/// account; at most `MAX_POOL_CREATORS` creators may be named (the
/// pool itself becomes one more on every minted token). The symbol is
/// stored zero-padded to its fixed width, and nothing is redeemed yet.
pub fn initialize_tars(
    data: TarsData,
    authority: Pubkey,
    wallet: Pubkey,
    payment: Option<PaymentMintFacts>,
) -> (r: Result<Tars, TarsError>)
    requires
        data.symbol@.len() <= MAX_SYMBOL_LENGTH,
    ensures
        match r {
            Err(e) => {
                if data.uuid@.len() != 6 {
                    e == TarsError::UuidMustBeExactly6Length
                } else if (payment matches Some(p) && !key_eq(p.mint, p.wallet_token_account_mint))
                 {
                    e == TarsError::MintMismatch
                } else {
                    e == TarsError::TooManyCreators && data.creators@.len() > MAX_POOL_CREATORS
                }
            },
            Ok(tars) => {
                &&& data.uuid@.len() == 6
                &&& (payment matches Some(p) ==> key_eq(p.mint, p.wallet_token_account_mint))
                &&& data.creators@.len() <= MAX_POOL_CREATORS
                &&& tars.authority == authority
                &&& tars.wallet == wallet
                &&& tars.items_redeemed == 0
                &&& tars.token_mint == match payment {
                    Some(p) => Some(p.mint),
                    None => None::<Pubkey>,
                }
                &&& tars.data.symbol@ == data.symbol@ + zero_bytes(
                    (MAX_SYMBOL_LENGTH - data.symbol@.len()) as nat,
                )
                &&& tars.data == (TarsData { symbol: tars.data.symbol, ..data })
                &&& tars.wf()
            },
        },
{
    if data.uuid.len() != 6 {
        return Err(TarsError::UuidMustBeExactly6Length);
    }
    let token_mint: Option<Pubkey> = match &payment {
        Some(p) => {
            if !cmp_pubkeys(&p.mint, &p.wallet_token_account_mint) {
                return Err(TarsError::MintMismatch);
            }
            Some(p.mint)
        },
        None => None,
    };
    let mut data = data;
    let ghost data0: TarsData = data;
    proof {
        assert(data.symbol@ =~= data0.symbol@ + zero_bytes(0));
    }
    while data.symbol.len() < MAX_SYMBOL_LENGTH
        invariant
            data0.symbol@.len() <= data.symbol@.len() <= MAX_SYMBOL_LENGTH,
            data.symbol@ == data0.symbol@ + zero_bytes(
                (data.symbol@.len() - data0.symbol@.len()) as nat,
            ),
            data == (TarsData { symbol: data.symbol, ..data0 }),
        decreases MAX_SYMBOL_LENGTH - data.symbol@.len(),
    {
        data.symbol.push(0);
        proof {
            assert(data.symbol@ =~= data0.symbol@ + zero_bytes(
                (data.symbol@.len() - data0.symbol@.len()) as nat,
            ));
        }
    }
    proof {
        assert(data.symbol@ =~= data0.symbol@ + zero_bytes(
            (MAX_SYMBOL_LENGTH - data0.symbol@.len()) as nat,
        ));
    }
    if data.creators.len() > MAX_POOL_CREATORS {
        return Err(TarsError::TooManyCreators);
    }
    Ok(Tars { authority, wallet, token_mint, items_redeemed: 0, data })
}

/// Byte `i` of the 4-byte little-endian count field: the number of
/// whole bitmask bytes, truncated to 32 bits.
pub open spec fn count_field_byte(items_available: u64, i: int) -> u8 {
    let m = (items_available / 8) % 0x1_0000_0000;
    if i == 0 {
        (m & 0xff) as u8
    } else if i == 1 {
        ((m >> 8) & 0xff) as u8
    } else if i == 2 {
        ((m >> 16) & 0xff) as u8
    } else {
        ((m >> 24) & 0xff) as u8
    }
}

/// Offset of the count field: right after the config-line array.
pub open spec fn count_field_start(n: int) -> int {
    CONFIG_ARRAY_START + 4 + n * CONFIG_LINE_SIZE
}

/// Stamp the bitmask byte count into a fresh non-hidden pool buffer,
/// as a 4-byte little-endian field after the config-line array.
pub fn write_bitmask_length(buf: &mut Vec<u8>, items_available: u64)
    requires
        items_available <= usize::MAX,
        count_field_start(items_available as int) + 4 <= old(buf)@.len(),
    ensures
        final(buf)@.len() == old(buf)@.len(),
        forall|i: int|
            0 <= i < 4 ==> final(buf)@[count_field_start(items_available as int) + i]
                == count_field_byte(items_available, i),
        forall|j: int|
            0 <= j < old(buf)@.len() && !(count_field_start(items_available as int) <= j
                < count_field_start(items_available as int) + 4) ==> final(buf)@[j] == old(
                buf,
            )@[j],
{
    proof {
        assert(items_available as int * CONFIG_LINE_SIZE >= 0) by (nonlinear_arith)
            requires
                items_available >= 0,
        ;
    }
    let blen = buf.len();
    let vs = CONFIG_ARRAY_START + 4 + (items_available as usize) * CONFIG_LINE_SIZE;
    let m: u64 = (items_available / 8) % 0x1_0000_0000;
    buf.set(vs, (m & 0xff) as u8);
    buf.set(vs + 1, ((m >> 8) & 0xff) as u8);
    buf.set(vs + 2, ((m >> 16) & 0xff) as u8);
    buf.set(vs + 3, ((m >> 24) & 0xff) as u8);
}

} // verus!
