//! Resolving the config line a mint receives.
//!
//! A hidden-settings pool synthesizes the line: the configured prefix,
//! a `#`, and the one-based mint sequence number in decimal; the buffer
//! is never touched. Otherwise the slot allocator picks and marks a
//! slot near the random start index and the packed store reads the
//! record there.

use vstd::prelude::*;
use vstd::utf8::valid_utf8;
use crate::allocator::{chosen_slot, get_good_index, probe_space, set_taken, taken};
use crate::errors::TarsError;
use crate::layout::{lemma_records_before_mask, record_start, CONFIG_LINE_SIZE};
use crate::state::{ConfigLine, Tars};
use crate::store::{line_flagged, line_name, line_uri, read_line, record_in_bounds};

verus! {

/// Decimal digits of `n`, most significant first.
pub open spec fn dec_digits(n: nat) -> Seq<u8>
    decreases n,
{
    if n < 10 {
        seq![(48 + n) as u8]
    } else {
        dec_digits(n / 10).push((48 + n % 10) as u8)
    }
}

/// Append the decimal digits of `x`.
fn push_decimal(out: &mut Vec<u8>, x: u64)
    ensures
        final(out)@ == old(out)@ + dec_digits(x as nat),
    decreases x,
{
    if x < 10 {
        out.push(48 + x as u8);
        assert(final(out)@ =~= old(out)@ + dec_digits(x as nat));
    } else {
        push_decimal(out, x / 10);
        out.push(48 + (x % 10) as u8);
        assert(final(out)@ =~= old(out)@ + dec_digits(x as nat));
    }
}

/// The name a hidden-settings pool gives mint number `sequence`:
/// `prefix`, `#`, then `sequence + 1` in decimal.
pub open spec fn hidden_name(prefix: Seq<u8>, sequence: nat) -> Seq<u8> {
    prefix + seq![35u8] + dec_digits(sequence + 1)
}

/// Build the generated name of mint `sequence` of a hidden pool.
#[verifier::loop_isolation(false)]
pub fn make_hidden_name(prefix: &Vec<u8>, sequence: u64) -> (out: Vec<u8>)
    requires
        sequence < u64::MAX,
    ensures
        out@ == hidden_name(prefix@, sequence as nat),
{
    let mut out: Vec<u8> = Vec::new();
    let plen = prefix.len();
    let mut i: usize = 0;
    while i < plen
        invariant
            i <= plen,
            out@ == prefix@.subrange(0, i as int),
        decreases plen - i,
    {
        out.push(prefix[i]);
        assert(out@ =~= prefix@.subrange(0, i + 1));
        i = i + 1;
    }
    assert(out@ =~= prefix@);
    out.push(35);  // '#'
    push_decimal(&mut out, sequence + 1);
    assert(out@ =~= hidden_name(prefix@, sequence as nat));
    out
}

/// Copy a byte vector.
#[verifier::loop_isolation(false)]
fn copy_bytes(src: &Vec<u8>) -> (out: Vec<u8>)
    ensures
        out@ == src@,
{
    let mut out: Vec<u8> = Vec::new();
    let len = src.len();
    let mut i: usize = 0;
    while i < len
        invariant
            i <= len,
            out@ == src@.subrange(0, i as int),
        decreases len - i,
    {
        out.push(src[i]);
        assert(out@ =~= src@.subrange(0, i + 1));
        i = i + 1;
    }
    assert(out@ =~= src@);
    out
}

/// Marking a slot in the bitmask leaves every record untouched.
proof fn lemma_set_taken_preserves_records(buf: Seq<u8>, n: int, slot: int, i: int)
    requires
        0 <= i < n,
        0 <= slot < n,
        probe_space(buf, n),
    ensures
        line_name(set_taken(buf, n, slot), i) == line_name(buf, i),
        line_uri(set_taken(buf, n, slot), i) == line_uri(buf, i),
        line_flagged(set_taken(buf, n, slot), i) == line_flagged(buf, i),
{
    lemma_records_before_mask(n, i);
    assert(0 <= slot / 8) by (nonlinear_arith)
        requires
            slot >= 0,
    ;
    let buf2 = set_taken(buf, n, slot);
    assert(buf2.subrange(
        record_start(i) + 4,
        record_start(i) + 4 + crate::layout::MAX_NAME_LENGTH,
    ) =~= buf.subrange(record_start(i) + 4, record_start(i) + 4 + crate::layout::MAX_NAME_LENGTH));
    assert(buf2.subrange(
        record_start(i) + 4 + crate::layout::MAX_NAME_LENGTH + 4,
        record_start(i) + CONFIG_LINE_SIZE,
    ) =~= buf.subrange(
        record_start(i) + 4 + crate::layout::MAX_NAME_LENGTH + 4,
        record_start(i) + CONFIG_LINE_SIZE,
    ));
    assert(buf2[record_start(i)] == buf[record_start(i)]);
}

/// What resolving a line does to a non-hidden pool buffer, and what it
/// returns. The probe's outcome decides everything: if no slot is free
/// the buffer is unchanged and the resolution fails; otherwise the
/// chosen slot's bit is set, and the record there is returned unless
/// its own flag or its text rejects it.
pub open spec fn resolution_ok(
    buf0: Seq<u8>,
    buf1: Seq<u8>,
    n: int,
    start: int,
    r: Result<ConfigLine, TarsError>,
) -> bool {
    match chosen_slot(buf0, n, start) {
        None => buf1 == buf0 && r == Err::<ConfigLine, TarsError>(
            TarsError::CannotFindUsableConfigLine,
        ),
        Some(slot) => buf1 == set_taken(buf0, n, slot) && if line_flagged(buf0, slot) {
            r == Err::<ConfigLine, TarsError>(TarsError::CannotFindUsableConfigLine)
        } else if !valid_utf8(line_name(buf0, slot)) || !valid_utf8(line_uri(buf0, slot)) {
            r == Err::<ConfigLine, TarsError>(TarsError::InvalidString)
        } else {
            match r {
                Ok(line) => line.name@ == line_name(buf0, slot) && line.uri@ == line_uri(
                    buf0,
                    slot,
                ),
                Err(_) => false,
            }
        },
    }
}

/// Resolve the config line for one mint: synthesize it under hidden
/// settings, otherwise allocate a slot near `index` and read its
/// record.
pub fn get_config_line(tars: &Tars, buf: &mut Vec<u8>, index: usize, mint_number: u64) -> (r:
    Result<ConfigLine, TarsError>)
    requires
        mint_number < u64::MAX,
        tars.data.hidden_settings is None ==> {
            &&& 0 < tars.data.items_available <= usize::MAX
            &&& (index as int) < tars.data.items_available as int
            &&& probe_space(old(buf)@, tars.data.items_available as int)
        },
    ensures
        match tars.data.hidden_settings {
            Some(hs) => final(buf)@ == old(buf)@ && (r matches Ok(line) && line.name@
                == hidden_name(hs.name@, mint_number as nat) && line.uri@ == hs.uri@),
            None => resolution_ok(
                old(buf)@,
                final(buf)@,
                tars.data.items_available as int,
                index as int,
                r,
            ),
        },
{
    match &tars.data.hidden_settings {
        Some(hs) => {
            let name = make_hidden_name(&hs.name, mint_number);
            let uri = copy_bytes(&hs.uri);
            Ok(ConfigLine { name, uri })
        },
        None => {
            let ghost n: int = tars.data.items_available as int;
            let ghost buf0: Seq<u8> = old(buf)@;
            let items = tars.data.items_available as usize;
            let (mut index_to_use, mut good) = match get_good_index(buf, items, index, true) {
                Ok(pair) => pair,
                Err(e) => {
                    return Err(e);
                },
            };
            if !good {
                let (index_new, good_new) = match get_good_index(buf, items, index, false) {
                    Ok(pair) => pair,
                    Err(e) => {
                        return Err(e);
                    },
                };
                index_to_use = index_new;
                good = good_new;
                if !good_new {
                    return Err(TarsError::CannotFindUsableConfigLine);
                }
            }
            proof {
                crate::allocator::lemma_find_forward_props(buf0, n, index as int);
                crate::allocator::lemma_find_backward_props(buf0, n, index as int);
                assert(chosen_slot(buf0, n, index as int) == Some(index_to_use as int));
                lemma_records_before_mask(n, index_to_use as int);
                lemma_set_taken_preserves_records(buf0, n, index_to_use as int,
                    index_to_use as int);
            }
            if buf_flag_check(buf, index_to_use) {
                return Err(TarsError::CannotFindUsableConfigLine);
            }
            match read_line(buf, index_to_use) {
                Ok((line, _)) => Ok(line),
                Err(e) => Err(e),
            }
        },
    }
}

/// A successful resolution, and any resolution that settled on a slot,
/// set exactly one more bit in the mask; a failed probe changed
/// nothing: the set bits count the slots handed out.
pub proof fn lemma_resolution_sets_one_bit(
    buf0: Seq<u8>,
    buf1: Seq<u8>,
    n: int,
    start: int,
    r: Result<ConfigLine, TarsError>,
)
    requires
        0 <= start < n,
        probe_space(buf0, n),
        resolution_ok(buf0, buf1, n, start, r),
    ensures
        chosen_slot(buf0, n, start) is Some ==> crate::allocator::taken_count(buf1, n)
            == crate::allocator::taken_count(buf0, n) + 1,
        chosen_slot(buf0, n, start) is None ==> buf1 == buf0,
{
    match chosen_slot(buf0, n, start) {
        Some(slot) => {
            crate::allocator::lemma_allocation_counts(buf0, n, start, slot);
        },
        None => {},
    }
}

/// On a pool whose records are unflagged and hold valid text,
/// resolving a line either succeeds on a slot in range whose bit was
/// clear and is now set, all other bits untouched, or fails with the
/// no-usable-line error exactly when every bit was already set,
/// leaving the buffer as it was.
pub proof fn lemma_resolution_dichotomy(
    buf0: Seq<u8>,
    buf1: Seq<u8>,
    n: int,
    start: int,
    r: Result<ConfigLine, TarsError>,
)
    requires
        0 <= start < n,
        probe_space(buf0, n),
        resolution_ok(buf0, buf1, n, start, r),
        forall|i: int| 0 <= i < n ==> !line_flagged(buf0, i),
        forall|i: int|
            0 <= i < n ==> valid_utf8(#[trigger] line_name(buf0, i)) && valid_utf8(
                line_uri(buf0, i),
            ),
    ensures
        match chosen_slot(buf0, n, start) {
            Some(slot) => {
                &&& r is Ok
                &&& 0 <= slot < n
                &&& !taken(buf0, n, slot)
                &&& taken(buf1, n, slot)
                &&& forall|j: int|
                    0 <= j < n && j != slot ==> taken(buf1, n, j) == taken(buf0, n, j)
            },
            None => {
                &&& r == Err::<ConfigLine, TarsError>(TarsError::CannotFindUsableConfigLine)
                &&& buf1 == buf0
                &&& forall|k: int| 0 <= k < n ==> taken(buf0, n, k)
            },
        },
{
    crate::allocator::lemma_probe_complete(buf0, n, start);
    match chosen_slot(buf0, n, start) {
        Some(slot) => {
            assert(!line_flagged(buf0, slot));
            assert(valid_utf8(line_name(buf0, slot)) && valid_utf8(line_uri(buf0, slot)));
            crate::allocator::lemma_set_taken_effect(buf0, n, slot);
        },
        None => {},
    }
}

/// Whether record `index` carries the per-record taken flag.
fn buf_flag_check(buf: &Vec<u8>, index: usize) -> (r: bool)
    requires
        record_in_bounds(buf@, index as int),
    ensures
        r == line_flagged(buf@, index as int),
{
    proof {
        crate::layout::lemma_record_start_bounds(index as int);
    }
    let blen = buf.len();
    let rs = crate::layout::CONFIG_ARRAY_START + 4 + index * CONFIG_LINE_SIZE;
    buf[rs] == 1
}

} // verus!
