//! Feature flags packed into the pool identifier.
//!
//! The 6-byte pool identifier doubles as a small bitset: the bits of
//! its last byte switch optional behaviour on and off. One flag is in
//! use: whether the pool has a collection attached.

use vstd::prelude::*;
use crate::allocator::{lemma_mask_test, nth_bit};

verus! {

/// Bit index of the "has collection" feature flag.
pub const COLLECTIONS_FEATURE_INDEX: usize = 0;

/// Whether feature `idx` is switched on in the identifier.
pub open spec fn feature_active(uuid: Seq<u8>, idx: u8) -> bool {
    nth_bit(uuid[5], idx)
}

/// Test a feature flag of the identifier.
pub fn is_feature_active(uuid: &Vec<u8>, feature_index: usize) -> (r: bool)
    requires
        uuid@.len() == 6,
        feature_index < 8,
    ensures
        r == feature_active(uuid@, feature_index as u8),
{
    let b = uuid[5];
    let k = feature_index as u8;
    let mask = 1u8 << k;
    proof {
        lemma_mask_test(b, k);
    }
    b & mask > 0
}

/// Clearing one bit clears it and leaves the others alone.
proof fn lemma_clear_bit(b: u8, k: u8, k2: u8)
    by (bit_vector)
    requires
        k < 8,
        k2 < 8,
    ensures
        ((b & !(1u8 << k)) >> k) & 1 == 0,
        k2 != k ==> (((b & !(1u8 << k)) >> k2) & 1) == ((b >> k2) & 1),
{
}

/// Switch a feature flag of the identifier off; every other bit and
/// byte keeps its value.
pub fn remove_feature_flag(uuid: &mut Vec<u8>, feature_index: usize)
    requires
        old(uuid)@.len() == 6,
        feature_index < 8,
    ensures
        final(uuid)@.len() == 6,
        !feature_active(final(uuid)@, feature_index as u8),
        forall|k: u8| k < 8 && k != feature_index ==> feature_active(final(uuid)@, k)
            == feature_active(old(uuid)@, k),
        forall|j: int| 0 <= j < 5 ==> final(uuid)@[j] == old(uuid)@[j],
{
    let b = uuid[5];
    let k = feature_index as u8;
    let cleared = b & !(1u8 << k);
    vstd::pervasive::VecAdditionalExecFns::set(uuid, 5, cleared);
    proof {
        assert forall|k2: u8| k2 < 8 && k2 != feature_index implies feature_active(uuid@, k2)
            == feature_active(old(uuid)@, k2) by {
            lemma_clear_bit(b, k, k2);
        }
        lemma_clear_bit(b, k, 0);
    }
}

} // verus!
