//! The transaction-introspection buffer.
//!
//! The host exposes the executing transaction's instruction list as
//! one read-only byte buffer: a 16-bit instruction count, a table of
//! 16-bit offsets, per instruction a 16-bit account count followed by
//! that many 33-byte account entries, the 32-byte program id, a 16-bit
//! data length and the data; the buffer's last two bytes hold the index
//! of the instruction being executed. The anti-injection gates read
//! this buffer and nothing else of the transaction.

use vstd::prelude::*;
use crate::keys::Pubkey;

verus! {

/// The 16-bit little-endian value at `pos`.
pub open spec fn u16_at(s: Seq<u8>, pos: int) -> int {
    s[pos] + 256 * s[pos + 1]
}

/// Where instruction `k`'s record begins.
pub open spec fn ix_offset(s: Seq<u8>, k: int) -> int {
    u16_at(s, 2 + 2 * k)
}

/// The program id and data of the instruction record at `off`, when
/// the record lies within the buffer.
pub open spec fn parse_ix_at(s: Seq<u8>, off: int) -> Option<(Seq<u8>, Seq<u8>)> {
    if off + 2 > s.len() {
        None
    } else {
        let num_accounts = u16_at(s, off);
        let pid_start = off + 2 + num_accounts * 33;
        if pid_start + 34 > s.len() {
            None
        } else {
            let data_len = u16_at(s, pid_start + 32);
            let data_start = pid_start + 34;
            if data_start + data_len > s.len() {
                None
            } else {
                Some(
                    (
                        s.subrange(pid_start, pid_start + 32),
                        s.subrange(data_start, data_start + data_len),
                    ),
                )
            }
        }
    }
}

/// The number of instructions the buffer declares.
pub open spec fn ix_count(s: Seq<u8>) -> int {
    u16_at(s, 0)
}

/// The index of the instruction being executed.
pub open spec fn current_ix_index(s: Seq<u8>) -> int {
    u16_at(s, s.len() - 2)
}

/// A well-formed introspection buffer: the table and every declared
/// record lie within it, and the running instruction's index is in
/// range. The host builds the buffer this way; its contents (programs,
/// data) remain arbitrary.
pub open spec fn wf_sysvar(s: Seq<u8>) -> bool {
    &&& s.len() >= 4
    &&& ix_count(s) > 0
    &&& 2 + 2 * ix_count(s) + 2 <= s.len()
    &&& forall|k: int| 0 <= k < ix_count(s) ==> (#[trigger] parse_ix_at(s, ix_offset(s, k))) is Some
    &&& current_ix_index(s) < ix_count(s)
}

/// One instruction as the gates see it.
#[derive(Clone, Debug)]
pub struct InstructionView {
    pub program_id: Pubkey,
    pub data: Vec<u8>,
}

/// The whole transaction as the gates see it.
#[derive(Clone, Debug)]
pub struct TransactionView {
    pub instructions: Vec<InstructionView>,
    pub current_index: u16,
}

impl TransactionView {
    /// The parsed view matches the buffer.
    pub open spec fn matches(self, s: Seq<u8>) -> bool {
        &&& self.instructions@.len() == ix_count(s)
        &&& forall|k: int|
            0 <= k < ix_count(s) ==> ((#[trigger] parse_ix_at(s, ix_offset(s, k))) matches Some(p)
                && self.instructions@[k].program_id.bytes@ == p.0 && self.instructions@[k].data@
                == p.1)
        &&& self.current_index == current_ix_index(s)
    }
}

/// Read the 16-bit little-endian value at `pos`.
fn read_u16(buf: &Vec<u8>, pos: usize) -> (r: u16)
    requires
        pos + 2 <= buf@.len(),
    ensures
        r == u16_at(buf@, pos as int),
{
    let blen = buf.len();
    let lo = buf[pos];
    let hi = buf[pos + 1];
    lo as u16 + 256 * (hi as u16)
}

/// Read the 32-byte key at `pos`.
#[verifier::loop_isolation(false)]
fn read_pubkey(buf: &Vec<u8>, pos: usize) -> (r: Pubkey)
    requires
        pos + 32 <= buf@.len(),
    ensures
        r.bytes@ == buf@.subrange(pos as int, pos as int + 32),
{
    let blen = buf.len();
    let mut bytes = [0u8; 32];
    let mut i: usize = 0;
    while i < 32
        invariant
            i <= 32,
            bytes@.len() == 32,
            forall|j: int| 0 <= j < i ==> bytes@[j] == buf@[pos + j],
        decreases 32 - i,
    {
        bytes[i] = buf[pos + i];
        i = i + 1;
    }
    proof {
        assert(bytes@ =~= buf@.subrange(pos as int, pos as int + 32));
    }
    Pubkey { bytes }
}

/// Copy `len` bytes starting at `pos`.
#[verifier::loop_isolation(false)]
fn read_bytes(buf: &Vec<u8>, pos: usize, len: usize) -> (r: Vec<u8>)
    requires
        pos + len <= buf@.len(),
    ensures
        r@ == buf@.subrange(pos as int, pos as int + len),
{
    let blen = buf.len();
    let mut out: Vec<u8> = Vec::new();
    let mut i: usize = 0;
    while i < len
        invariant
            i <= len,
            out@ == buf@.subrange(pos as int, pos as int + i),
        decreases len - i,
    {
        out.push(buf[pos + i]);
        proof {
            assert(out@ =~= buf@.subrange(pos as int, pos as int + i + 1));
        }
        i = i + 1;
    }
    out
}

/// Parse one instruction record, if it lies within the buffer.
fn parse_one(buf: &Vec<u8>, off: usize) -> (r: Option<InstructionView>)
    ensures
        match r {
            Some(ix) => parse_ix_at(buf@, off as int) matches Some(p) && ix.program_id.bytes@
                == p.0 && ix.data@ == p.1,
            None => parse_ix_at(buf@, off as int) is None,
        },
{
    let blen = buf.len();
    if off > blen || blen - off < 2 {
        return None;
    }
    let num_accounts = read_u16(buf, off) as usize;
    let skip = 2 + num_accounts * 33;
    if blen - off < skip || blen - (off + skip) < 34 {
        return None;
    }
    let pid_start = off + skip;
    let program_id = read_pubkey(buf, pid_start);
    let data_len = read_u16(buf, pid_start + 32) as usize;
    let data_start = pid_start + 34;
    if blen - data_start < data_len {
        return None;
    }
    let data = read_bytes(buf, data_start, data_len);
    Some(InstructionView { program_id, data })
}

/// Parse the whole introspection buffer; `None` exactly when it is not
/// well formed.
#[verifier::loop_isolation(false)]
pub fn parse_instruction_sysvar(buf: &Vec<u8>) -> (r: Option<TransactionView>)
    ensures
        match r {
            Some(tv) => wf_sysvar(buf@) && tv.matches(buf@),
            None => !wf_sysvar(buf@),
        },
{
    let blen = buf.len();
    if blen < 4 {
        return None;
    }
    let count = read_u16(buf, 0) as usize;
    if count == 0 {
        return None;
    }
    if blen < 2 + 2 * count + 2 {
        return None;
    }
    let mut instructions: Vec<InstructionView> = Vec::new();
    let mut k: usize = 0;
    while k < count
        invariant
            k <= count,
            instructions@.len() == k,
            forall|j: int|
                0 <= j < k ==> ((#[trigger] parse_ix_at(buf@, ix_offset(buf@, j))) matches Some(p)
                    && instructions@[j].program_id.bytes@ == p.0 && instructions@[j].data@ == p.1),
        decreases count - k,
    {
        let off = read_u16(buf, 2 + 2 * k) as usize;
        assert(off == ix_offset(buf@, k as int));
        match parse_one(buf, off) {
            Some(ix) => {
                instructions.push(ix);
            },
            None => {
                return None;
            },
        }
        k = k + 1;
    }
    let current_index = read_u16(buf, blen - 2);
    if current_index as usize >= count {
        return None;
    }
    Some(TransactionView { instructions, current_index })
}

} // verus!
