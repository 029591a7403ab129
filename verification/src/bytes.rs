//! Big-endian integers in byte buffers: reading them out of register data and
//! writing them into binary frames.

use vstd::prelude::*;

verus! {

/// The value of two bytes, most significant first.
pub open spec fn be16(hi: u8, lo: u8) -> u16 {
    (hi as int * 256 + lo as int) as u16
}

/// The value of four bytes, most significant first.
pub open spec fn be32(b0: u8, b1: u8, b2: u8, b3: u8) -> u32 {
    (b0 as int * 16777216 + b1 as int * 65536 + b2 as int * 256 + b3 as int) as u32
}

/// The big-endian 16-bit value at `d[i..i + 2]`.
pub open spec fn be16_at(d: Seq<u8>, i: int) -> u16 {
    be16(d[i], d[i + 1])
}

/// The big-endian 32-bit value at `d[i..i + 4]`.
pub open spec fn be32_at(d: Seq<u8>, i: int) -> u32 {
    be32(d[i], d[i + 1], d[i + 2], d[i + 3])
}

/// The bytes of `v`, most significant first, as `u16::to_be_bytes` gives them.
pub open spec fn u16_be(v: u16) -> Seq<u8> {
    seq![(v / 256) as u8, (v % 256) as u8]
}

/// The bytes of `v`, most significant first, as `u32::to_be_bytes` gives them.
pub open spec fn u32_be(v: u32) -> Seq<u8> {
    seq![(v / 16777216) as u8, ((v / 65536) % 256) as u8, ((v / 256) % 256) as u8, (v % 256) as u8]
}

/// The bytes of `v`, most significant first, as `u64::to_be_bytes` gives them.
pub open spec fn u64_be(v: u64) -> Seq<u8> {
    u32_be((v / 4294967296) as u32) + u32_be((v % 4294967296) as u32)
}

/// Reads the big-endian 16-bit value at `d[i..i + 2]`.
pub fn read_be16(d: &[u8], i: usize) -> (v: u16)
    requires
        i + 1 < d@.len(),
    ensures
        v == be16_at(d@, i as int),
{
    (d[i] as u16) * 256 + (d[i + 1] as u16)
}

/// Reads the big-endian 32-bit value at `d[i..i + 4]`.
pub fn read_be32(d: &[u8], i: usize) -> (v: u32)
    requires
        i + 3 < d@.len(),
    ensures
        v == be32_at(d@, i as int),
{
    (d[i] as u32) * 16777216 + (d[i + 1] as u32) * 65536 + (d[i + 2] as u32) * 256 + (d[i + 3] as u32)
}

/// Appends `bytes` to `out`.
pub fn push_bytes(out: &mut Vec<u8>, bytes: &[u8])
    ensures
        final(out)@ == old(out)@ + bytes@,
{
    let mut i: usize = 0;
    while i < bytes.len()
        invariant
            i <= bytes@.len(),
            out@ == old(out)@ + bytes@.take(i as int),
        decreases bytes.len() - i,
    {
        out.push(bytes[i]);
        proof {
            assert(bytes@.take(i + 1) =~= bytes@.take(i as int).push(bytes@[i as int]));
        }
        i += 1;
    }
    proof {
        assert(bytes@.take(bytes@.len() as int) =~= bytes@);
    }
}

/// Appends the big-endian bytes of `v` to `out`.
pub fn push_be16(out: &mut Vec<u8>, v: u16)
    ensures
        final(out)@ == old(out)@ + u16_be(v),
{
    out.push((v / 256) as u8);
    out.push((v % 256) as u8);
    proof {
        assert(final(out)@ =~= old(out)@ + u16_be(v));
    }
}

/// Appends the big-endian bytes of `v` to `out`.
pub fn push_be32(out: &mut Vec<u8>, v: u32)
    ensures
        final(out)@ == old(out)@ + u32_be(v),
{
    out.push((v / 16777216) as u8);
    out.push(((v / 65536) % 256) as u8);
    out.push(((v / 256) % 256) as u8);
    out.push((v % 256) as u8);
    proof {
        assert(final(out)@ =~= old(out)@ + u32_be(v));
    }
}

/// Appends the big-endian bytes of `v` to `out`.
pub fn push_be64(out: &mut Vec<u8>, v: u64)
    ensures
        final(out)@ == old(out)@ + u64_be(v),
{
    push_be32(out, (v / 4294967296) as u32);
    push_be32(out, (v % 4294967296) as u32);
    proof {
        assert(final(out)@ =~= old(out)@ + u64_be(v));
    }
}

} // verus!
