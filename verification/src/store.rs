//! The packed config-line store: fixed-size records inside the pool
//! buffer.
//!
//! Record `i` starts at `record_start(i)`: a 4-byte taken-flag field
//! whose first byte is the flag, `MAX_NAME_LENGTH` name bytes, a 4-byte
//! reserved field, and `MAX_URI_LENGTH` URI bytes. Name and URI are
//! zero-padded and read back up to their first zero byte.

use vstd::prelude::*;
use vstd::pervasive::VecAdditionalExecFns;
use vstd::utf8::valid_utf8;
use crate::errors::TarsError;
use crate::layout::{record_start, CONFIG_LINE_SIZE, MAX_NAME_LENGTH, MAX_URI_LENGTH};
use crate::state::ConfigLine;
use crate::utf8_check::is_valid_utf8;

verus! {

/// Index of the first zero byte, or the length when none occurs.
pub open spec fn first_zero(s: Seq<u8>) -> int
    decreases s.len(),
{
    if s.len() == 0 {
        0
    } else if s[0] == 0 {
        0
    } else {
        1 + first_zero(s.skip(1))
    }
}

/// The bytes before the first zero.
pub open spec fn trimmed(s: Seq<u8>) -> Seq<u8> {
    s.subrange(0, first_zero(s))
}

/// `first_zero` marks a position whose prefix is free of zeros and
/// which holds a zero unless it is the end.
pub proof fn lemma_first_zero_at(s: Seq<u8>, i: int)
    requires
        0 <= i <= s.len(),
        forall|j: int| 0 <= j < i ==> s[j] != 0,
        i == s.len() || s[i] == 0,
    ensures
        first_zero(s) == i,
    decreases s.len(),
{
    if s.len() > 0 && s[0] != 0 {
        lemma_first_zero_at(s.skip(1), i - 1);
    }
}

/// `first_zero` in fact points at a zero-free prefix.
pub proof fn lemma_first_zero_props(s: Seq<u8>)
    ensures
        0 <= first_zero(s) <= s.len(),
        forall|j: int| 0 <= j < first_zero(s) ==> s[j] != 0,
        first_zero(s) == s.len() || s[first_zero(s)] == 0,
    decreases s.len(),
{
    if s.len() > 0 && s[0] != 0 {
        lemma_first_zero_props(s.skip(1));
        assert forall|j: int| 0 <= j < first_zero(s) implies s[j] != 0 by {
            if j > 0 {
                assert(s.skip(1)[j - 1] != 0);
            }
        }
        if first_zero(s) < s.len() {
            assert(s[first_zero(s)] == s.skip(1)[first_zero(s.skip(1))]);
        }
    }
}

/// The name bytes stored in record `i`, up to their first zero.
pub open spec fn line_name(buf: Seq<u8>, i: int) -> Seq<u8> {
    trimmed(buf.subrange(record_start(i) + 4, record_start(i) + 4 + MAX_NAME_LENGTH))
}

/// The URI bytes stored in record `i`, up to their first zero.
pub open spec fn line_uri(buf: Seq<u8>, i: int) -> Seq<u8> {
    trimmed(
        buf.subrange(
            record_start(i) + 4 + MAX_NAME_LENGTH + 4,
            record_start(i) + CONFIG_LINE_SIZE,
        ),
    )
}

/// Whether record `i` carries the per-record taken flag.
pub open spec fn line_flagged(buf: Seq<u8>, i: int) -> bool {
    buf[record_start(i)] == 1
}

/// The buffer holds record `i` in full.
pub open spec fn record_in_bounds(buf: Seq<u8>, i: int) -> bool {
    record_start(i) + CONFIG_LINE_SIZE <= buf.len()
}

/// Read the bytes of a zero-padded field `[start, start + width)` up
/// to their first zero.
#[verifier::loop_isolation(false)]
fn read_padded_field(buf: &Vec<u8>, start: usize, width: usize) -> (out: Vec<u8>)
    requires
        start + width <= buf@.len(),
    ensures
        out@ == trimmed(buf@.subrange(start as int, start as int + width)),
{
    let blen = buf.len();
    let ghost window: Seq<u8> = buf@.subrange(start as int, start as int + width);
    let mut out: Vec<u8> = Vec::new();
    let mut i: usize = 0;
    while i < width
        invariant
            i <= width,
            out@ == window.subrange(0, i as int),
            forall|j: int| 0 <= j < i ==> window[j] != 0,
        decreases width - i,
    {
        let b = buf[start + i];
        assert(b == window[i as int]);
        if b == 0 {
            proof {
                lemma_first_zero_at(window, i as int);
            }
            assert(out@ =~= trimmed(window));
            return out;
        }
        out.push(b);
        proof {
            assert(out@ =~= window.subrange(0, i + 1));
        }
        i = i + 1;
    }
    proof {
        lemma_first_zero_at(window, width as int);
        assert(out@ =~= trimmed(window));
    }
    out
}

/// Read record `i`: its name and URI up to their zero padding, and its
/// taken flag. Fails with `InvalidString` exactly when either field is
/// not valid UTF-8 (the name is checked first, as stored).
pub fn read_line(buf: &Vec<u8>, index: usize) -> (r: Result<(ConfigLine, bool), TarsError>)
    requires
        record_in_bounds(buf@, index as int),
    ensures
        match r {
            Ok((line, taken_flag)) => {
                &&& line.name@ == line_name(buf@, index as int)
                &&& line.uri@ == line_uri(buf@, index as int)
                &&& valid_utf8(line.name@)
                &&& valid_utf8(line.uri@)
                &&& taken_flag == line_flagged(buf@, index as int)
            },
            Err(e) => e == TarsError::InvalidString && (!valid_utf8(
                line_name(buf@, index as int),
            ) || !valid_utf8(line_uri(buf@, index as int))),
        },
{
    proof {
        crate::layout::lemma_record_start_bounds(index as int);
    }
    let blen = buf.len();
    let rs = record_start_exec(index);
    let flag = buf[rs];
    let name = read_padded_field(buf, rs + 4, MAX_NAME_LENGTH);
    if !is_valid_utf8(&name) {
        return Err(TarsError::InvalidString);
    }
    let uri = read_padded_field(buf, rs + 4 + MAX_NAME_LENGTH + 4, MAX_URI_LENGTH);
    if !is_valid_utf8(&uri) {
        return Err(TarsError::InvalidString);
    }
    Ok((ConfigLine { name, uri }, flag == 1))
}

/// Byte offset of record `index`.
fn record_start_exec(index: usize) -> (r: usize)
    requires
        record_start(index as int) + CONFIG_LINE_SIZE <= usize::MAX,
    ensures
        r == record_start(index as int),
{
    proof {
        crate::layout::lemma_record_start_bounds(index as int);
    }
    crate::layout::CONFIG_ARRAY_START + 4 + index * CONFIG_LINE_SIZE
}

/// Write a zero-padded field of `width` bytes at `start`.
#[verifier::loop_isolation(false)]
fn write_padded_field(buf: &mut Vec<u8>, start: usize, width: usize, data: &Vec<u8>)
    requires
        start + width <= old(buf)@.len(),
        data@.len() <= width,
    ensures
        final(buf)@.len() == old(buf)@.len(),
        final(buf)@.subrange(start as int, start as int + data@.len() as int) == data@,
        forall|j: int| start + data@.len() <= j < start + width ==> final(buf)@[j] == 0,
        forall|j: int|
            0 <= j < old(buf)@.len() && !(start <= j < start + width) ==> final(buf)@[j] == old(
                buf,
            )@[j],
{
    let blen = buf.len();
    let dlen = data.len();
    let mut i: usize = 0;
    while i < dlen
        invariant
            i <= dlen,
            buf@.len() == old(buf)@.len(),
            forall|j: int| 0 <= j < i ==> buf@[start + j] == data@[j],
            forall|j: int|
                0 <= j < old(buf)@.len() && !(start <= j < start + i) ==> buf@[j] == old(buf)@[j],
        decreases dlen - i,
    {
        buf.set(start + i, data[i]);
        i = i + 1;
    }
    let mut k: usize = dlen;
    while k < width
        invariant
            dlen <= k <= width,
            buf@.len() == old(buf)@.len(),
            forall|j: int| 0 <= j < dlen ==> buf@[start + j] == data@[j],
            forall|j: int| start + dlen <= j < start + k ==> buf@[j] == 0,
            forall|j: int|
                0 <= j < old(buf)@.len() && !(start <= j < start + k) ==> buf@[j] == old(buf)@[j],
        decreases width - k,
    {
        buf.set(start + k, 0);
        k = k + 1;
    }
    proof {
        assert(buf@.subrange(start as int, start as int + data@.len() as int) =~= data@);
    }
}

/// Zero-free bytes trim to themselves: writing a config line and
/// reading it back yields the written name and URI unchanged, the zero
/// padding stripped.
pub proof fn lemma_trimmed_zero_free(s: Seq<u8>)
    requires
        forall|j: int| 0 <= j < s.len() ==> s[j] != 0,
    ensures
        trimmed(s) == s,
{
    lemma_first_zero_at(s, s.len() as int);
    assert(trimmed(s) =~= s);
}

/// A field written as data followed by zero padding trims back to the
/// data's own trimmed form.
pub proof fn lemma_trimmed_of_padded(window: Seq<u8>, data: Seq<u8>)
    requires
        data.len() <= window.len(),
        window.subrange(0, data.len() as int) == data,
        forall|j: int| data.len() <= j < window.len() ==> window[j] == 0,
    ensures
        trimmed(window) == trimmed(data),
{
    lemma_first_zero_props(data);
    let f = first_zero(data);
    assert(forall|j: int| 0 <= j < data.len() ==> window[j] == data[j]);
    lemma_first_zero_at(window, f);
    assert(trimmed(window) =~= trimmed(data));
}

/// Write record `index`: clear flag fields, the name and the URI each
/// zero-padded to its fixed width. Only this record's bytes change, and
/// reading the record back yields the written strings (zero-free
/// strings round-trip exactly).
#[verifier::loop_isolation(false)]
pub fn write_config_line(buf: &mut Vec<u8>, index: usize, line: &ConfigLine)
    requires
        record_in_bounds(old(buf)@, index as int),
        line.name@.len() <= MAX_NAME_LENGTH,
        line.uri@.len() <= MAX_URI_LENGTH,
    ensures
        final(buf)@.len() == old(buf)@.len(),
        !line_flagged(final(buf)@, index as int),
        line_name(final(buf)@, index as int) == trimmed(line.name@),
        line_uri(final(buf)@, index as int) == trimmed(line.uri@),
        forall|j: int|
            0 <= j < old(buf)@.len() && !(record_start(index as int) <= j < record_start(
                index as int,
            ) + CONFIG_LINE_SIZE) ==> final(buf)@[j] == old(buf)@[j],
{
    proof {
        crate::layout::lemma_record_start_bounds(index as int);
    }
    let len = buf.len();
    let rs = record_start_exec(index);
    let mut i: usize = 0;
    while i < 4
        invariant
            i <= 4,
            buf@.len() == old(buf)@.len(),
            forall|j: int| rs <= j < rs + i ==> buf@[j] == 0,
            forall|j: int|
                0 <= j < old(buf)@.len() && !(rs <= j < rs + i) ==> buf@[j] == old(buf)@[j],
        decreases 4 - i,
    {
        buf.set(rs + i, 0);
        i = i + 1;
    }
    write_padded_field(buf, rs + 4, MAX_NAME_LENGTH, &line.name);
    let ghost s2: Seq<u8> = buf@;
    let mut k: usize = 0;
    while k < 4
        invariant
            k <= 4,
            buf@.len() == old(buf)@.len(),
            forall|j: int|
                rs + 4 + MAX_NAME_LENGTH <= j < rs + 4 + MAX_NAME_LENGTH + k ==> buf@[j] == 0,
            forall|j: int|
                0 <= j < old(buf)@.len() && !(rs + 4 + MAX_NAME_LENGTH <= j < rs + 4
                    + MAX_NAME_LENGTH + k) ==> buf@[j] == s2[j],
        decreases 4 - k,
    {
        buf.set(rs + 4 + MAX_NAME_LENGTH + k, 0);
        k = k + 1;
    }
    let ghost s3: Seq<u8> = buf@;
    write_padded_field(buf, rs + 4 + MAX_NAME_LENGTH + 4, MAX_URI_LENGTH, &line.uri);
    proof {
        let rsi = record_start(index as int);
        let nlen = line.name@.len() as int;
        let ulen = line.uri@.len() as int;
        assert(s2[rsi] == 0);
        assert(s3[rsi] == s2[rsi]);
        assert(buf@[rsi] == s3[rsi]);
        assert forall|j: int| rsi + 4 <= j < rsi + 4 + MAX_NAME_LENGTH implies buf@[j]
            == s2[j] by {
            assert(s3[j] == s2[j]);
            assert(buf@[j] == s3[j]);
        }
        let name_window = buf@.subrange(rsi + 4, rsi + 4 + MAX_NAME_LENGTH);
        assert forall|j: int| 0 <= j < nlen implies name_window[j] == line.name@[j] by {
            assert(s2.subrange(rsi + 4, rsi + 4 + nlen)[j] == line.name@[j]);
        }
        assert(name_window.subrange(0, nlen) =~= line.name@);
        assert forall|j: int| nlen <= j < MAX_NAME_LENGTH implies name_window[j] == 0 by {
            assert(s2[rsi + 4 + j] == 0);
        }
        lemma_trimmed_of_padded(name_window, line.name@);
        let uri_window = buf@.subrange(rsi + 4 + MAX_NAME_LENGTH + 4, rsi + CONFIG_LINE_SIZE);
        assert forall|j: int| 0 <= j < ulen implies uri_window[j] == line.uri@[j] by {
            assert(buf@.subrange(rsi + 4 + MAX_NAME_LENGTH + 4, rsi + 4 + MAX_NAME_LENGTH + 4
                + ulen)[j] == line.uri@[j]);
        }
        assert(uri_window.subrange(0, ulen) =~= line.uri@);
        assert forall|j: int| ulen <= j < MAX_URI_LENGTH implies uri_window[j] == 0 by {
            assert(buf@[rsi + 4 + MAX_NAME_LENGTH + 4 + j] == 0);
        }
        lemma_trimmed_of_padded(uri_window, line.uri@);
    }
}

/// Set the per-record taken flag of record `index`.
pub fn mark_taken(buf: &mut Vec<u8>, index: usize)
    requires
        record_in_bounds(old(buf)@, index as int),
    ensures
        final(buf)@ == old(buf)@.update(record_start(index as int), 1u8),
        line_flagged(final(buf)@, index as int),
{
    proof {
        crate::layout::lemma_record_start_bounds(index as int);
    }
    let blen = buf.len();
    let rs = record_start_exec(index);
    buf.set(rs, 1);
}

} // verus!
