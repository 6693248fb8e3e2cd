//! A UTF-8 validity check over raw bytes.
//!
//! Names and URIs live in the pool buffer as bytes; a line whose
//! trimmed bytes are not valid UTF-8 is reported as invalid text. The
//! checker is proved equivalent to `vstd::utf8::valid_utf8`.

use vstd::prelude::*;
use vstd::utf8::*;

verus! {

/// One-byte scalars are always well formed.
proof fn lemma_width_1_valid(s: Seq<u8>)
    requires
        s.len() >= 1,
        is_leading_byte_width_1(s[0]),
    ensures
        valid_first_scalar(s),
        length_of_first_scalar(s) == 1,
{
    let b0 = s[0];
    assert(codepoint_width_1(b0) < 0xd800) by (bit_vector)
        requires
            b0 <= 0x7f,
    ;
}

/// A two-byte encoding is well formed exactly when the leading byte is
/// at least `0xc2` (below that the codepoint would be overlong).
proof fn lemma_width_2(s: Seq<u8>)
    requires
        s.len() >= 2,
        is_leading_byte_width_2(s[0]),
        is_continuation_byte(s[1]),
    ensures
        valid_first_scalar(s) == (s[0] >= 0xc2),
        length_of_first_scalar(s) == 2,
{
    let b0 = s[0];
    let b1 = s[1];
    assert((codepoint_width_2(b0, b1) >= 0x80) == (b0 >= 0xc2) && codepoint_width_2(b0, b1)
        < 0xd800) by (bit_vector)
        requires
            0xc0 <= b0 <= 0xdf,
            0x80 <= b1 <= 0xbf,
    ;
}

/// A three-byte encoding is well formed exactly when it is neither
/// overlong (`0xe0` leader with a low second byte) nor a surrogate
/// (`0xed` leader with a high second byte).
proof fn lemma_width_3(s: Seq<u8>)
    requires
        s.len() >= 3,
        is_leading_byte_width_3(s[0]),
        is_continuation_byte(s[1]),
        is_continuation_byte(s[2]),
    ensures
        valid_first_scalar(s) == (!(s[0] == 0xe0 && s[1] < 0xa0) && !(s[0] == 0xed && s[1]
            >= 0xa0)),
        length_of_first_scalar(s) == 3,
{
    let b0 = s[0];
    let b1 = s[1];
    let b2 = s[2];
    assert((codepoint_width_3(b0, b1, b2) >= 0x800) == !(b0 == 0xe0 && b1 < 0xa0) && (0xd800
        <= codepoint_width_3(b0, b1, b2) <= 0xdfff) == (b0 == 0xed && b1 >= 0xa0)) by (bit_vector)
        requires
            0xe0 <= b0 <= 0xef,
            0x80 <= b1 <= 0xbf,
            0x80 <= b2 <= 0xbf,
    ;
}

/// A four-byte encoding is well formed exactly when its codepoint lies
/// in `[0x10000, 0x10ffff]`, which the first two bytes decide.
proof fn lemma_width_4(s: Seq<u8>)
    requires
        s.len() >= 4,
        is_leading_byte_width_4(s[0]),
        is_continuation_byte(s[1]),
        is_continuation_byte(s[2]),
        is_continuation_byte(s[3]),
    ensures
        valid_first_scalar(s) == (!(s[0] == 0xf0 && s[1] < 0x90) && (s[0] < 0xf4 || (s[0] == 0xf4
            && s[1] < 0x90))),
        length_of_first_scalar(s) == 4,
{
    let b0 = s[0];
    let b1 = s[1];
    let b2 = s[2];
    let b3 = s[3];
    assert((codepoint_width_4(b0, b1, b2, b3) >= 0x10000) == !(b0 == 0xf0 && b1 < 0x90) && (
    codepoint_width_4(b0, b1, b2, b3) <= 0x10ffff) == (b0 < 0xf4 || (b0 == 0xf4 && b1 < 0x90)) && (
    codepoint_width_4(b0, b1, b2, b3) >= 0x10000 ==> !(0xd800 <= codepoint_width_4(b0, b1, b2, b3)
        <= 0xdfff))) by (bit_vector)
        requires
            0xf0 <= b0 <= 0xf7,
            0x80 <= b1 <= 0xbf,
            0x80 <= b2 <= 0xbf,
            0x80 <= b3 <= 0xbf,
    ;
}

/// An invalid scalar at any position spoils the whole sequence.
proof fn lemma_invalid_here(bytes: Seq<u8>, i: int)
    requires
        0 <= i < bytes.len(),
        partial_valid_utf8(bytes, i),
        !valid_first_scalar(bytes.subrange(i, bytes.len() as int)),
    ensures
        !valid_utf8(bytes),
{
    assert(!valid_utf8(bytes.subrange(i, bytes.len() as int)));
    partial_valid_partial_invalid_utf8(bytes, i);
}

/// Whether the bytes are a valid UTF-8 encoding.
#[verifier::loop_isolation(false)]
#[verifier::rlimit(60)]
pub fn is_valid_utf8(v: &Vec<u8>) -> (r: bool)
    ensures
        r == valid_utf8(v@),
{
    let len = v.len();
    let mut i: usize = 0;
    while i < len
        invariant
            i <= len,
            partial_valid_utf8(v@, i as int),
        decreases len - i,
    {
        let ghost suffix: Seq<u8> = v@.subrange(i as int, len as int);
        let b0 = v[i];
        assert(suffix[0] == b0);
        let width: usize;
        if b0 <= 0x7f {
            proof {
                lemma_width_1_valid(suffix);
            }
            width = 1;
        } else if 0xc2 <= b0 && b0 <= 0xdf {
            if len - i < 2 || !is_continuation(v[i + 1]) {
                proof {
                    lemma_invalid_here(v@, i as int);
                }
                return false;
            }
            proof {
                assert(suffix[1] == v@[i + 1]);
                lemma_width_2(suffix);
            }
            width = 2;
        } else if 0xe0 <= b0 && b0 <= 0xef {
            if len - i < 3 || !is_continuation(v[i + 1]) || !is_continuation(v[i + 2]) {
                proof {
                    lemma_invalid_here(v@, i as int);
                }
                return false;
            }
            let b1 = v[i + 1];
            if (b0 == 0xe0 && b1 < 0xa0) || (b0 == 0xed && b1 >= 0xa0) {
                proof {
                    assert(suffix[1] == v@[i + 1] && suffix[2] == v@[i + 2]);
                    lemma_width_3(suffix);
                    lemma_invalid_here(v@, i as int);
                }
                return false;
            }
            proof {
                assert(suffix[1] == v@[i + 1] && suffix[2] == v@[i + 2]);
                lemma_width_3(suffix);
            }
            width = 3;
        } else if 0xf0 <= b0 && b0 <= 0xf4 {
            if len - i < 4 || !is_continuation(v[i + 1]) || !is_continuation(v[i + 2])
                || !is_continuation(v[i + 3]) {
                proof {
                    lemma_invalid_here(v@, i as int);
                }
                return false;
            }
            let b1 = v[i + 1];
            if (b0 == 0xf0 && b1 < 0x90) || (b0 == 0xf4 && b1 >= 0x90) {
                proof {
                    assert(suffix[1] == v@[i + 1] && suffix[2] == v@[i + 2] && suffix[3] == v@[i
                        + 3]);
                    lemma_width_4(suffix);
                    lemma_invalid_here(v@, i as int);
                }
                return false;
            }
            proof {
                assert(suffix[1] == v@[i + 1] && suffix[2] == v@[i + 2] && suffix[3] == v@[i + 3]);
                lemma_width_4(suffix);
            }
            width = 4;
        } else {
            // continuation bytes, 0xc0/0xc1 and 0xf5..0xff cannot lead
            // a scalar
            proof {
                if 0xc0 <= b0 && b0 <= 0xdf {
                    if suffix.len() >= 2 && is_continuation_byte(suffix[1]) {
                        lemma_width_2(suffix);
                    }
                } else if 0xf0 <= b0 && b0 <= 0xf7 {
                    if suffix.len() >= 4 && is_continuation_byte(suffix[1])
                        && is_continuation_byte(suffix[2]) && is_continuation_byte(suffix[3]) {
                        lemma_width_4(suffix);
                    }
                }
                lemma_invalid_here(v@, i as int);
            }
            return false;
        }
        proof {
            assert(valid_first_scalar(suffix) && length_of_first_scalar(suffix) == width);
            partial_valid_utf8_extend(v@, i as int);
        }
        i = i + width;
    }
    proof {
        assert(v@.subrange(0, len as int) =~= v@);
    }
    true
}

/// Whether a byte has the continuation pattern `10xxxxxx`.
fn is_continuation(b: u8) -> (r: bool)
    ensures
        r == is_continuation_byte(b),
{
    0x80 <= b && b <= 0xbf
}

} // verus!
