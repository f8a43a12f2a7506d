//! Little-endian byte serialization primitives used to lay out the GPU
//! parameter buffers.

use vstd::prelude::*;

verus! {

/// The four little-endian bytes of a 32-bit word.
pub open spec fn le32(v: u32) -> Seq<u8> {
    seq![
        (v & 0xff) as u8,
        ((v >> 8) & 0xff) as u8,
        ((v >> 16) & 0xff) as u8,
        ((v >> 24) & 0xff) as u8,
    ]
}

/// A run of `n` zero bytes (layout padding).
pub open spec fn zeros(n: nat) -> Seq<u8> {
    Seq::new(n, |i: int| 0u8)
}

/// The 32-bit two's-complement representative of a signed value.
pub open spec fn u32_repr(v: int) -> int {
    if v >= 0 {
        v
    } else {
        v + 0x1_0000_0000
    }
}

/// The four little-endian bytes of a signed 32-bit word, in two's complement.
pub open spec fn le32i(v: i32) -> Seq<u8> {
    le32(u32_repr(v as int) as u32)
}

/// Reinterpret a signed 32-bit value as its two's-complement bit pattern.
pub fn i32_bits(v: i32) -> (r: u32)
    ensures
        r as int == u32_repr(v as int),
{
    if v >= 0 {
        v as u32
    } else {
        let wide: i64 = v as i64 + 0x1_0000_0000i64;
        wide as u32
    }
}

/// Append the four little-endian bytes of `v` to `out`.
pub fn push_u32_le(out: &mut Vec<u8>, v: u32)
    ensures
        final(out)@ == old(out)@ + le32(v),
{
    let b0: u8 = (v & 0xff) as u8;
    let b1: u8 = ((v >> 8) & 0xff) as u8;
    let b2: u8 = ((v >> 16) & 0xff) as u8;
    let b3: u8 = ((v >> 24) & 0xff) as u8;
    out.push(b0);
    out.push(b1);
    out.push(b2);
    out.push(b3);
    assert(out@ =~= old(out)@ + le32(v));
}

/// Append the four little-endian two's-complement bytes of `v` to `out`.
pub fn push_i32_le(out: &mut Vec<u8>, v: i32)
    ensures
        final(out)@ == old(out)@ + le32i(v),
{
    let bits: u32 = i32_bits(v);
    push_u32_le(out, bits);
}

/// Append `n` zero bytes to `out`.
pub fn push_zeros(out: &mut Vec<u8>, n: usize)
    ensures
        final(out)@ == old(out)@ + zeros(n as nat),
{
    let mut i: usize = 0;
    while i < n
        invariant
            i <= n,
            out@ == old(out)@ + zeros(i as nat),
        decreases n - i,
    {
        out.push(0u8);
        i = i + 1;
        assert(out@ =~= old(out)@ + zeros(i as nat));
    }
}

} // verus!
