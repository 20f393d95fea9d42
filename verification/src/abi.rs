//! Framing arithmetic of the sandboxed policy ABI.
//!
//! The host and the policy guest exchange buffers in the guest's linear
//! memory. A call hands the guest a `(pointer, length)` pair; the guest
//! answers with one 64-bit value that packs the response buffer's length
//! into the upper 32 bits and its pointer into the lower 32. Before touching
//! a buffer, either side checks that it lies inside the guest memory.

use vstd::prelude::*;

verus! {

/// 2^32: the weight of the length half of a packed response.
pub const RESPONSE_LENGTH_WEIGHT: u64 = 0x1_0000_0000;

/// The value that packs a response buffer's length and pointer into one
/// 64-bit answer.
pub open spec fn packed_response(ptr: u32, len: u32) -> u64 {
    ((len as int) * (RESPONSE_LENGTH_WEIGHT as int) + (ptr as int)) as u64
}

/// Pack a response buffer's pointer and length into the 64-bit answer the
/// guest returns: `(length << 32) | pointer`.
pub fn pack_response(ptr: u32, len: u32) -> (r: u64)
    ensures
        r == packed_response(ptr, len),
{
    let r = ((len as u64) << 32u64) | (ptr as u64);
    proof {
        let l = len as u64;
        let p = ptr as u64;
        assert((l <= 0xFFFF_FFFF && p <= 0xFFFF_FFFF) ==> ((l << 32u64) | p) == l * 0x1_0000_0000
            + p) by (bit_vector);
    }
    r
}

/// Split the 64-bit answer back into the response buffer's pointer (lower
/// half) and length (upper half).
pub fn split_response(r: u64) -> (p: (u32, u32))
    ensures
        p.0 == r as int % (RESPONSE_LENGTH_WEIGHT as int),
        p.1 == r as int / (RESPONSE_LENGTH_WEIGHT as int),
{
    let ptr = (r & 0xFFFF_FFFF) as u32;
    let len = (r >> 32u64) as u32;
    proof {
        assert((r & 0xFFFF_FFFF) == r % 0x1_0000_0000) by (bit_vector);
        assert((r >> 32u64) == r / 0x1_0000_0000) by (bit_vector);
    }
    (ptr, len)
}

/// Packing then splitting recovers the pointer and the length exactly.
pub proof fn lemma_response_roundtrip(ptr: u32, len: u32)
    ensures
        packed_response(ptr, len) as int % (RESPONSE_LENGTH_WEIGHT as int) == ptr as int,
        packed_response(ptr, len) as int / (RESPONSE_LENGTH_WEIGHT as int) == len as int,
{
    let l = len as int;
    let p = ptr as int;
    let w = RESPONSE_LENGTH_WEIGHT as int;
    assert(l * w + p <= 0xFFFF_FFFF * 0x1_0000_0000 + 0xFFFF_FFFF) by (nonlinear_arith)
        requires
            l <= 0xFFFF_FFFF,
            p <= 0xFFFF_FFFF,
            w == 0x1_0000_0000,
    ;
    assert((l * w + p) % w == p && (l * w + p) / w == l) by (nonlinear_arith)
        requires
            0 <= p < w,
            0 <= l,
    ;
}

/// Whether a buffer of `size` bytes at `ptr` lies inside a guest memory of
/// `mem_size` bytes, end exclusive and computed without wrapping.
pub fn response_in_bounds(ptr: u32, size: u32, mem_size: u64) -> (r: bool)
    ensures
        r == ((ptr as int + size as int) < mem_size as int),
{
    (ptr as u64) + (size as u64) < mem_size
}

} // verus!
