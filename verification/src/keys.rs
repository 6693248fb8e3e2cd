//! Account addresses as plain 32-byte values.
//!
//! The pool logic never inspects an address beyond comparing it with
//! another, so an address is modelled as its raw bytes.

use vstd::prelude::*;

verus! {

/// A 32-byte account address.
#[derive(Clone, Copy, Debug)]
pub struct Pubkey {
    pub bytes: [u8; 32],
}

/// Spec-level address equality: the 32 bytes coincide.
pub open spec fn key_eq(a: Pubkey, b: Pubkey) -> bool {
    a.bytes@ == b.bytes@
}

/// Compare two addresses byte for byte.
pub fn cmp_pubkeys(a: &Pubkey, b: &Pubkey) -> (r: bool)
    ensures
        r == key_eq(*a, *b),
{
    let mut i: usize = 0;
    while i < 32
        invariant
            i <= 32,
            forall|j: int| 0 <= j < i ==> a.bytes@[j] == b.bytes@[j],
        decreases 32 - i,
    {
        if a.bytes[i] != b.bytes[i] {
            assert(a.bytes@ != b.bytes@);
            return false;
        }
        i += 1;
    }
    proof {
        assert(a.bytes@ =~= b.bytes@);
    }
    true
}

} // verus!
