//! The slot allocator: a bidirectional linear probe over the taken
//! bitmask.
//!
//! Starting from a pseudo-randomly derived index, the search walks
//! forward to the end of the mask and, failing that, backward from the
//! same start, skipping fully saturated bytes whole. The first clear bit
//! found is set and returned. The contracts pin the chosen slot to
//! [`find_forward`] / [`find_backward`], so the search is deterministic
//! and every claim about it reduces to those two spec functions.

use vstd::prelude::*;
use vstd::arithmetic::div_mod::lemma_fundamental_div_mod;
use vstd::pervasive::VecAdditionalExecFns;
use crate::errors::TarsError;
use crate::layout::{mask_start, mask_len, CONFIG_ARRAY_START, CONFIG_LINE_SIZE};

verus! {

/// Bit `k` of a byte, counting from the least significant end.
pub open spec fn nth_bit(b: u8, k: u8) -> bool {
    (b >> k) & 1 == 1
}

/// Which bit of its mask byte stands for item `i`: most significant
/// bit first.
pub open spec fn bit_pos(i: int) -> u8 {
    (7 - (i % 8)) as u8
}

/// Whether item `i` of a pool of capacity `n` is marked taken.
pub open spec fn taken(buf: Seq<u8>, n: int, i: int) -> bool {
    nth_bit(buf[mask_start(n) + i / 8], bit_pos(i))
}

/// The buffer after marking item `i` taken.
pub open spec fn set_taken(buf: Seq<u8>, n: int, i: int) -> Seq<u8> {
    let p = mask_start(n) + i / 8;
    buf.update(p, buf[p] | (1u8 << bit_pos(i)))
}

/// The first clear index at or after `i`, if any.
pub open spec fn find_forward(buf: Seq<u8>, n: int, i: int) -> Option<int>
    decreases n - i,
{
    if i < 0 || i >= n {
        None
    } else if !taken(buf, n, i) {
        Some(i)
    } else {
        find_forward(buf, n, i + 1)
    }
}

/// The last clear index at or before `i`, if any.
pub open spec fn find_backward(buf: Seq<u8>, n: int, i: int) -> Option<int>
    decreases i + 1,
{
    if i < 0 || i >= n {
        None
    } else if !taken(buf, n, i) {
        Some(i)
    } else {
        find_backward(buf, n, i - 1)
    }
}

/// The slot the two-phase probe settles on: forward first, then
/// backward from the same start.
pub open spec fn chosen_slot(buf: Seq<u8>, n: int, start: int) -> Option<int> {
    match find_forward(buf, n, start) {
        Some(i) => Some(i),
        None => find_backward(buf, n, start),
    }
}

/// Number of taken bits among the first `m` items.
pub open spec fn count_taken_upto(buf: Seq<u8>, n: int, m: int) -> nat
    decreases m,
{
    if m <= 0 {
        0
    } else {
        count_taken_upto(buf, n, m - 1) + if taken(buf, n, m - 1) {
            1nat
        } else {
            0nat
        }
    }
}

/// Number of taken bits in the whole mask.
pub open spec fn taken_count(buf: Seq<u8>, n: int) -> nat {
    count_taken_upto(buf, n, n)
}

/// In a saturated byte every bit is set.
proof fn lemma_bits_of_255()
    by (bit_vector)
    ensures
        forall|k: u8| k < 8 ==> ((255u8 >> k) & 1) == 1,
{
}

/// Testing a bit with a single-bit mask agrees with `nth_bit`.
pub proof fn lemma_mask_test(b: u8, k: u8)
    by (bit_vector)
    requires
        k < 8,
    ensures
        (b & (1u8 << k) > 0) == ((b >> k) & 1 == 1),
{
}

/// Setting one bit sets it and leaves the others alone.
proof fn lemma_set_bit(b: u8, k: u8, k2: u8)
    by (bit_vector)
    requires
        k < 8,
        k2 < 8,
    ensures
        ((b | (1u8 << k)) >> k) & 1 == 1,
        k2 != k ==> (((b | (1u8 << k)) >> k2) & 1) == ((b >> k2) & 1),
{
}

/// Two distinct items that share a mask byte use distinct bits of it.
proof fn lemma_distinct_bit_pos(i: int, j: int)
    requires
        i >= 0,
        j >= 0,
        i != j,
        i / 8 == j / 8,
    ensures
        bit_pos(i) != bit_pos(j),
{
    lemma_fundamental_div_mod(i, 8);
    lemma_fundamental_div_mod(j, 8);
}

/// Marking item `i` taken changes no other item's mark and does not
/// change the buffer's length.
pub proof fn lemma_set_taken_effect(buf: Seq<u8>, n: int, i: int)
    requires
        0 <= i < n,
        mask_start(n) + mask_len(n) <= buf.len(),
    ensures
        set_taken(buf, n, i).len() == buf.len(),
        taken(set_taken(buf, n, i), n, i),
        forall|j: int| 0 <= j < n && j != i ==> taken(set_taken(buf, n, i), n, j) == taken(
            buf,
            n,
            j,
        ),
{
    let buf2 = set_taken(buf, n, i);
    let p = mask_start(n) + i / 8;
    assert(0 <= i / 8 < mask_len(n)) by (nonlinear_arith)
        requires
            0 <= i < n,
    ;
    assert(0 <= i % 8 < 8) by (nonlinear_arith)
        requires
            i >= 0,
    ;
    lemma_set_bit(buf[p], bit_pos(i), 0);
    assert(taken(buf2, n, i));
    assert forall|j: int| 0 <= j < n && j != i implies taken(buf2, n, j) == taken(
        buf,
        n,
        j,
    ) by {
        let q = mask_start(n) + j / 8;
        assert(0 <= j / 8 < mask_len(n)) by (nonlinear_arith)
            requires
                0 <= j < n,
        ;
        assert(0 <= j % 8 < 8) by (nonlinear_arith)
            requires
                j >= 0,
        ;
        if q == p {
            lemma_distinct_bit_pos(i, j);
            lemma_set_bit(buf[p], bit_pos(i), bit_pos(j));
        }
    }
}

/// A probe never returns a taken slot, and what it skips was taken.
pub proof fn lemma_find_forward_props(buf: Seq<u8>, n: int, i: int)
    requires
        i >= 0,
    ensures
        match find_forward(buf, n, i) {
            Some(j) => i <= j < n && !taken(buf, n, j) && forall|k: int|
                i <= k < j ==> taken(buf, n, k),
            None => forall|k: int| i <= k < n ==> taken(buf, n, k),
        },
    decreases n - i,
{
    if i < 0 || i >= n {
    } else if !taken(buf, n, i) {
    } else {
        lemma_find_forward_props(buf, n, i + 1);
    }
}

/// Mirror of [`lemma_find_forward_props`] for the backward probe.
pub proof fn lemma_find_backward_props(buf: Seq<u8>, n: int, i: int)
    requires
        i < n,
    ensures
        match find_backward(buf, n, i) {
            Some(j) => 0 <= j <= i && j < n && !taken(buf, n, j) && forall|k: int|
                j < k <= i && k < n ==> taken(buf, n, k),
            None => forall|k: int| 0 <= k <= i && k < n ==> taken(buf, n, k),
        },
    decreases i + 1,
{
    if i < 0 || i >= n {
    } else if !taken(buf, n, i) {
    } else {
        lemma_find_backward_props(buf, n, i - 1);
    }
}

/// Skipping taken indices does not change where the forward probe lands.
proof fn lemma_forward_skip(buf: Seq<u8>, n: int, i: int, j: int)
    requires
        0 <= i <= j,
        forall|k: int| i <= k < j && k < n ==> taken(buf, n, k),
    ensures
        find_forward(buf, n, i) == find_forward(buf, n, j),
    decreases j - i,
{
    if i < j {
        if i >= n {
            assert(find_forward(buf, n, i) == None::<int>);
            assert(j >= n);
            assert(find_forward(buf, n, j) == None::<int>);
        } else {
            assert(taken(buf, n, i));
            lemma_forward_skip(buf, n, i + 1, j);
        }
    }
}

/// Skipping taken indices does not change where the backward probe lands.
proof fn lemma_backward_skip(buf: Seq<u8>, n: int, i: int, j: int)
    requires
        j <= i < n,
        forall|k: int| j < k <= i ==> taken(buf, n, k),
    ensures
        find_backward(buf, n, i) == find_backward(buf, n, j),
    decreases i - j,
{
    if j < i {
        if i >= 0 {
            assert(taken(buf, n, i));
            lemma_backward_skip(buf, n, i - 1, j);
        }
    }
}

/// Marking a clear item raises the taken count by exactly one.
pub proof fn lemma_set_taken_count(buf: Seq<u8>, n: int, i: int, m: int)
    requires
        0 <= i < n,
        m <= n,
        !taken(buf, n, i),
        mask_start(n) + mask_len(n) <= buf.len(),
    ensures
        count_taken_upto(set_taken(buf, n, i), n, m) == count_taken_upto(buf, n, m) + if i < m {
            1int
        } else {
            0int
        },
    decreases m,
{
    lemma_set_taken_effect(buf, n, i);
    if m > 0 {
        lemma_set_taken_count(buf, n, i, m - 1);
    }
}

/// The probe always terminates usefully: it settles on a clear slot in
/// range whenever one exists anywhere in the mask, and comes up empty
/// only when every slot is taken.
pub proof fn lemma_probe_complete(buf: Seq<u8>, n: int, start: int)
    requires
        0 <= start < n,
    ensures
        match chosen_slot(buf, n, start) {
            Some(i) => 0 <= i < n && !taken(buf, n, i),
            None => forall|k: int| 0 <= k < n ==> taken(buf, n, k),
        },
{
    lemma_find_forward_props(buf, n, start);
    lemma_find_backward_props(buf, n, start);
}

/// A successful allocation raises the number of set bits by exactly
/// one, and clears none: the set bits count the successful allocations.
pub proof fn lemma_allocation_counts(buf: Seq<u8>, n: int, start: int, i: int)
    requires
        0 <= start < n,
        probe_space(buf, n),
        chosen_slot(buf, n, start) == Some(i),
    ensures
        taken_count(set_taken(buf, n, i), n) == taken_count(buf, n) + 1,
        forall|j: int| 0 <= j < n && taken(buf, n, j) ==> taken(set_taken(buf, n, i), n, j),
{
    lemma_probe_complete(buf, n, start);
    lemma_set_taken_count(buf, n, i, n);
    lemma_set_taken_effect(buf, n, i);
}

/// The probe is a function of the buffer and the start index alone:
/// equal states yield equal outcomes.
pub proof fn lemma_allocation_deterministic(buf1: Seq<u8>, buf2: Seq<u8>, n: int, start: int)
    requires
        buf1 == buf2,
    ensures
        chosen_slot(buf1, n, start) == chosen_slot(buf2, n, start),
{
}

/// A probe never settles on a slot already marked taken; with bits
/// never cleared, a slot once handed out stays out of reach.
pub proof fn lemma_taken_slot_never_chosen(buf: Seq<u8>, n: int, start: int, i: int)
    requires
        0 <= start < n,
        taken(buf, n, i),
    ensures
        chosen_slot(buf, n, start) != Some(i),
{
    lemma_probe_complete(buf, n, start);
    if chosen_slot(buf, n, start) == Some(i) {
        assert(!taken(buf, n, i));
    }
}

/// No slot is handed out twice: once an allocation settles on a slot,
/// no later probe of the updated mask settles on it again, whatever
/// start index it is given (set bits are never cleared).
pub proof fn lemma_no_double_allocation(buf: Seq<u8>, n: int, s1: int, s2: int, i: int)
    requires
        0 <= s1 < n,
        0 <= s2 < n,
        probe_space(buf, n),
        chosen_slot(buf, n, s1) == Some(i),
    ensures
        chosen_slot(set_taken(buf, n, i), n, s2) != Some(i),
{
    lemma_probe_complete(buf, n, s1);
    lemma_set_taken_effect(buf, n, i);
    let buf2 = set_taken(buf, n, i);
    lemma_probe_complete(buf2, n, s2);
    if chosen_slot(buf2, n, s2) == Some(i) {
        assert(!taken(buf2, n, i));
    }
}

/// The buffer and success count after a sequence of allocation
/// attempts, one probe per start index.
pub open spec fn run_allocations(buf: Seq<u8>, n: int, starts: Seq<int>) -> (Seq<u8>, nat)
    decreases starts.len(),
{
    if starts.len() == 0 {
        (buf, 0nat)
    } else {
        let prev = run_allocations(buf, n, starts.drop_last());
        match chosen_slot(prev.0, n, starts.last()) {
            Some(i) => (set_taken(prev.0, n, i), prev.1 + 1nat),
            None => (prev.0, prev.1),
        }
    }
}

/// The slot attempt `k` of a run settles on, if any.
pub open spec fn run_choice(buf: Seq<u8>, n: int, starts: Seq<int>, k: int) -> Option<int> {
    chosen_slot(run_allocations(buf, n, starts.take(k)).0, n, starts[k])
}

/// The bitmask invariant, over whole runs: after any sequence of
/// allocation attempts the number of set bits has grown by exactly the
/// number of successes, no set bit was ever cleared, and the buffer
/// kept its size.
pub proof fn lemma_bitmask_invariant(buf: Seq<u8>, n: int, starts: Seq<int>)
    requires
        n > 0,
        probe_space(buf, n),
        forall|k: int| 0 <= k < starts.len() ==> 0 <= #[trigger] starts[k] < n,
    ensures
        run_allocations(buf, n, starts).0.len() == buf.len(),
        taken_count(run_allocations(buf, n, starts).0, n) == taken_count(buf, n)
            + run_allocations(buf, n, starts).1,
        forall|j: int|
            0 <= j < n && taken(buf, n, j) ==> taken(run_allocations(buf, n, starts).0, n, j),
    decreases starts.len(),
{
    if starts.len() > 0 {
        lemma_bitmask_invariant(buf, n, starts.drop_last());
        let prev = run_allocations(buf, n, starts.drop_last());
        match chosen_slot(prev.0, n, starts.last()) {
            Some(i) => {
                lemma_probe_complete(prev.0, n, starts.last());
                lemma_allocation_counts(prev.0, n, starts.last(), i);
                lemma_set_taken_effect(prev.0, n, i);
            },
            None => {},
        }
    }
}

/// A bit set before a run is still set after it.
proof fn lemma_run_preserves_taken(buf: Seq<u8>, n: int, starts: Seq<int>, i: int)
    requires
        n > 0,
        0 <= i < n,
        probe_space(buf, n),
        taken(buf, n, i),
        forall|k: int| 0 <= k < starts.len() ==> 0 <= #[trigger] starts[k] < n,
    ensures
        taken(run_allocations(buf, n, starts).0, n, i),
    decreases starts.len(),
{
    if starts.len() > 0 {
        lemma_run_preserves_taken(buf, n, starts.drop_last(), i);
        lemma_bitmask_invariant(buf, n, starts.drop_last());
        let prev = run_allocations(buf, n, starts.drop_last());
        match chosen_slot(prev.0, n, starts.last()) {
            Some(c) => {
                lemma_probe_complete(prev.0, n, starts.last());
                lemma_set_taken_effect(prev.0, n, c);
            },
            None => {},
        }
    }
}

/// Splitting a run: attempts made after a prefix act on the prefix's
/// buffer.
proof fn lemma_run_concat(buf: Seq<u8>, n: int, s1: Seq<int>, s2: Seq<int>)
    ensures
        run_allocations(buf, n, s1 + s2).0 == run_allocations(
            run_allocations(buf, n, s1).0,
            n,
            s2,
        ).0,
    decreases s2.len(),
{
    if s2.len() == 0 {
        assert(s1 + s2 =~= s1);
    } else {
        lemma_run_concat(buf, n, s1, s2.drop_last());
        assert((s1 + s2).drop_last() =~= s1 + s2.drop_last());
        assert((s1 + s2).last() == s2.last());
    }
}

/// No slot twice, over whole runs: once an attempt of a run settles on
/// a slot, no later attempt of the same run settles on it again.
pub proof fn lemma_run_no_double_allocation(
    buf: Seq<u8>,
    n: int,
    starts: Seq<int>,
    k1: int,
    k2: int,
    i: int,
)
    requires
        n > 0,
        probe_space(buf, n),
        forall|k: int| 0 <= k < starts.len() ==> 0 <= #[trigger] starts[k] < n,
        0 <= k1 < k2 < starts.len(),
        run_choice(buf, n, starts, k1) == Some(i),
    ensures
        run_choice(buf, n, starts, k2) != Some(i),
{
    let before = run_allocations(buf, n, starts.take(k1)).0;
    lemma_bitmask_invariant(buf, n, starts.take(k1));
    assert(forall|k: int| 0 <= k < starts.take(k1).len() ==> 0 <= #[trigger] starts.take(k1)[k] < n);
    lemma_probe_complete(before, n, starts[k1]);
    assert(0 <= i < n);
    let after = run_allocations(buf, n, starts.take(k1 + 1)).0;
    assert(starts.take(k1 + 1).drop_last() =~= starts.take(k1));
    assert(starts.take(k1 + 1).last() == starts[k1]);
    assert(after == set_taken(before, n, i));
    lemma_set_taken_effect(before, n, i);
    assert(taken(after, n, i));
    let middle = starts.take(k2).subrange(k1 + 1, k2);
    assert(starts.take(k1 + 1) + middle =~= starts.take(k2));
    lemma_run_concat(buf, n, starts.take(k1 + 1), middle);
    lemma_bitmask_invariant(buf, n, starts.take(k1 + 1));
    assert(forall|k: int| 0 <= k < middle.len() ==> 0 <= #[trigger] middle[k] < n);
    lemma_run_preserves_taken(after, n, middle, i);
    lemma_taken_slot_never_chosen(run_allocations(buf, n, starts.take(k2)).0, n, starts[k2], i);
}

/// Every index in the byte-aligned block `[8 * q, 8 * q + 8)` lives in
/// mask byte `q`.
proof fn lemma_same_byte(q: int, k: int)
    by (nonlinear_arith)
    requires
        8 * q <= k < 8 * q + 8,
    ensures
        k / 8 == q,
        0 <= k % 8 < 8,
{
}

/// Buffer length the probe needs: the whole bitmask must be there.
pub open spec fn probe_space(buf: Seq<u8>, n: int) -> bool {
    mask_start(n) + mask_len(n) <= buf.len()
}

/// Search the taken bitmask for a clear slot, forward from `index` when
/// `pos` is set, backward otherwise, skipping saturated bytes whole.
/// On success the bit is set in place and its index returned with
/// `true`; otherwise the buffer is untouched and the flag is `false`.
#[verifier::loop_isolation(false)]
#[verifier::rlimit(60)]
pub fn get_good_index(arr: &mut Vec<u8>, items_available: usize, index: usize, pos: bool) -> (r:
    Result<(usize, bool), TarsError>)
    requires
        0 < items_available,
        index < items_available,
        probe_space(old(arr)@, items_available as int),
    ensures
        r is Ok,
        pos ==> match find_forward(old(arr)@, items_available as int, index as int) {
            Some(i) => r == Ok::<_, TarsError>((i as usize, true)) && final(arr)@ == set_taken(
                old(arr)@,
                items_available as int,
                i,
            ),
            None => final(arr)@ == old(arr)@ && (r matches Ok((_, found)) && !found),
        },
        !pos ==> match find_backward(old(arr)@, items_available as int, index as int) {
            Some(i) => r == Ok::<_, TarsError>((i as usize, true)) && final(arr)@ == set_taken(
                old(arr)@,
                items_available as int,
                i,
            ),
            None => final(arr)@ == old(arr)@ && (r matches Ok((_, found)) && !found),
        },
{
    let ghost gn: int = items_available as int;
    let ghost buf0: Seq<u8> = arr@;
    let n = items_available;
    let len = arr.len();
    proof {
        assert(gn <= gn * CONFIG_LINE_SIZE) by (nonlinear_arith)
            requires
                gn > 0,
        ;
        assert(gn / 8 >= 0 && (gn + 7) / 8 >= gn / 8) by (nonlinear_arith)
            requires
                gn > 0,
        ;
    }
    let ms_base: usize = CONFIG_ARRAY_START + 4 + n * CONFIG_LINE_SIZE + 4 + n / 8 + 4;
    assert(ms_base == mask_start(gn));
    let mut idx = index;
    let mut found = false;
    if pos {
        while !found && idx < n
            invariant
                index <= idx,
                !found ==> arr@ == buf0 && find_forward(buf0, gn, index as int) == find_forward(
                    buf0,
                    gn,
                    idx as int,
                ),
                found ==> idx < n && find_forward(buf0, gn, index as int) == Some(idx as int)
                    && arr@ == set_taken(buf0, gn, idx as int),
            decreases (if found {
                0int
            } else if idx < n {
                n - idx + 1
            } else {
                0int
            }),
        {
            let ghost cur: int = idx as int;
            proof {
                lemma_same_byte(cur / 8, cur);
                assert(cur / 8 < mask_len(gn)) by (nonlinear_arith)
                    requires
                        0 <= cur < gn,
                ;
            }
            let byte_pos = ms_base + idx / 8;
            let b = arr[byte_pos];
            if b == 255u8 {
                let er = 8 - idx % 8;
                proof {
                    lemma_bits_of_255();
                    assert forall|k: int| cur <= k < cur + er && k < gn implies taken(
                        buf0,
                        gn,
                        k,
                    ) by {
                        lemma_same_byte(cur / 8, k);
                    }
                    lemma_forward_skip(buf0, gn, cur, cur + er);
                }
                idx = idx + er;
            } else {
                let k: u8 = (7 - idx % 8) as u8;
                let mask = 1u8 << k;
                proof {
                    lemma_mask_test(b, k);
                }
                if b & mask > 0 {
                    assert(taken(buf0, gn, cur));
                    idx = idx + 1;
                } else {
                    assert(!taken(buf0, gn, cur));
                    assert(find_forward(buf0, gn, cur) == Some(cur));
                    arr.set(byte_pos, b | mask);
                    proof {
                        assert(arr@ =~= set_taken(buf0, gn, cur));
                    }
                    found = true;
                }
            }
        }
        if found {
            Ok((idx, true))
        } else {
            proof {
                if idx >= n {
                    assert(find_forward(buf0, gn, idx as int) is None);
                }
            }
            Ok((idx, false))
        }
    } else {
        let mut dead = false;
        while !found && !dead
            invariant
                idx <= index,
                !found && !dead ==> arr@ == buf0 && find_backward(buf0, gn, index as int)
                    == find_backward(buf0, gn, idx as int),
                found ==> !dead && find_backward(buf0, gn, index as int) == Some(idx as int)
                    && arr@ == set_taken(buf0, gn, idx as int),
                dead ==> arr@ == buf0 && find_backward(buf0, gn, index as int) is None,
            decreases (if found || dead {
                0int
            } else {
                idx + 1
            }),
        {
            let ghost cur: int = idx as int;
            proof {
                lemma_same_byte(cur / 8, cur);
                assert(cur / 8 < mask_len(gn)) by (nonlinear_arith)
                    requires
                        0 <= cur < gn,
                ;
            }
            let byte_pos = ms_base + idx / 8;
            let b = arr[byte_pos];
            if b == 255u8 {
                proof {
                    lemma_bits_of_255();
                    assert forall|k: int| cur - cur % 8 <= k <= cur implies taken(
                        buf0,
                        gn,
                        k,
                    ) by {
                        lemma_same_byte(cur / 8, k);
                    }
                }
                if idx < 8 {
                    proof {
                        assert(cur / 8 == 0) by (nonlinear_arith)
                            requires
                                0 <= cur < 8,
                        ;
                        lemma_backward_skip(buf0, gn, cur, 0);
                        assert(taken(buf0, gn, 0));
                        assert(find_backward(buf0, gn, -1) is None);
                        assert(find_backward(buf0, gn, 0) is None);
                    }
                    dead = true;
                } else {
                    let reversed = idx % 8 + 1;
                    proof {
                        lemma_backward_skip(buf0, gn, cur, cur - (cur % 8 + 1));
                    }
                    idx = idx - reversed;
                }
            } else {
                let k: u8 = (7 - idx % 8) as u8;
                let mask = 1u8 << k;
                proof {
                    lemma_mask_test(b, k);
                }
                if b & mask > 0 {
                    assert(taken(buf0, gn, cur));
                    if idx == 0 {
                        proof {
                            assert(find_backward(buf0, gn, -1) is None);
                            assert(find_backward(buf0, gn, 0) is None);
                        }
                        dead = true;
                    } else {
                        idx = idx - 1;
                    }
                } else {
                    assert(!taken(buf0, gn, cur));
                    assert(find_backward(buf0, gn, cur) == Some(cur));
                    arr.set(byte_pos, b | mask);
                    proof {
                        assert(arr@ =~= set_taken(buf0, gn, cur));
                    }
                    found = true;
                }
            }
        }
        if found {
            Ok((idx, true))
        } else {
            Ok((idx, false))
        }
    }
}

} // verus!
