//! Little-endian field helpers shared by the command decoder and the
//! response encoder. All multi-byte integers on the wire are little-endian;
//! addresses and bulk lengths travel as 3-byte (24-bit) fields.

use vstd::prelude::*;

verus! {

/// The two little-endian bytes of a 16-bit value.
pub open spec fn le16_bytes(v: u16) -> Seq<u8> {
    seq![(v & 0xff) as u8, ((v >> 8) & 0xff) as u8]
}

/// The three little-endian bytes of a 24-bit value carried in a `u32`.
pub open spec fn le24_bytes(v: u32) -> Seq<u8> {
    seq![(v & 0xff) as u8, ((v >> 8) & 0xff) as u8, ((v >> 16) & 0xff) as u8]
}

/// The four little-endian bytes of a 32-bit value.
pub open spec fn le32_bytes(v: u32) -> Seq<u8> {
    seq![
        (v & 0xff) as u8,
        ((v >> 8) & 0xff) as u8,
        ((v >> 16) & 0xff) as u8,
        ((v >> 24) & 0xff) as u8,
    ]
}

/// The 24-bit value read from three little-endian bytes.
pub open spec fn u24_of(b0: u8, b1: u8, b2: u8) -> u32 {
    (b0 as u32) | ((b1 as u32) << 8) | ((b2 as u32) << 16)
}

/// The 32-bit value read from four little-endian bytes.
pub open spec fn u32_of(b0: u8, b1: u8, b2: u8, b3: u8) -> u32 {
    (b0 as u32) | ((b1 as u32) << 8) | ((b2 as u32) << 16) | ((b3 as u32) << 24)
}

/// A 24-bit field decodes back to the value it was encoded from.
pub proof fn lemma_le24_round_trip(v: u32)
    requires
        v < 0x1000000,
    ensures
        u24_of(le24_bytes(v)[0], le24_bytes(v)[1], le24_bytes(v)[2]) == v,
{
    assert((((v & 0xff) as u8) as u32) | ((((v >> 8) & 0xff) as u8) as u32) << 8 | ((((v >> 16)
        & 0xff) as u8) as u32) << 16 == v) by (bit_vector)
        requires
            v < 0x1000000,
    ;
}

/// A 32-bit field decodes back to the value it was encoded from.
pub proof fn lemma_le32_round_trip(v: u32)
    ensures
        u32_of(le32_bytes(v)[0], le32_bytes(v)[1], le32_bytes(v)[2], le32_bytes(v)[3]) == v,
{
    assert((((v & 0xff) as u8) as u32) | ((((v >> 8) & 0xff) as u8) as u32) << 8 | ((((v >> 16)
        & 0xff) as u8) as u32) << 16 | ((((v >> 24) & 0xff) as u8) as u32) << 24 == v)
        by (bit_vector);
}

/// Reads the 24-bit little-endian field at offset `at`.
pub fn read_u24(input: &Vec<u8>, at: usize) -> (r: u32)
    requires
        at + 3 <= input@.len(),
    ensures
        r == u24_of(input@[at as int], input@[at + 1], input@[at + 2]),
{
    proof {
        assert(input.len() == input@.len());
    }
    (input[at] as u32) | ((input[at + 1] as u32) << 8) | ((input[at + 2] as u32) << 16)
}

/// Reads the 32-bit little-endian field at offset `at`.
pub fn read_u32(input: &Vec<u8>, at: usize) -> (r: u32)
    requires
        at + 4 <= input@.len(),
    ensures
        r == u32_of(input@[at as int], input@[at + 1], input@[at + 2], input@[at + 3]),
{
    proof {
        assert(input.len() == input@.len());
    }
    (input[at] as u32) | ((input[at + 1] as u32) << 8) | ((input[at + 2] as u32) << 16) | ((input[at
        + 3] as u32) << 24)
}

/// Appends the two little-endian bytes of `v`.
pub fn push_le16(out: &mut Vec<u8>, v: u16)
    ensures
        final(out)@ == old(out)@ + le16_bytes(v),
{
    proof {
        assert((v & 0xff) < 0x100 && ((v >> 8) & 0xff) < 0x100) by (bit_vector);
    }
    out.push((v & 0xff) as u8);
    out.push(((v >> 8) & 0xff) as u8);
    proof {
        assert(out@ =~= old(out)@ + le16_bytes(v));
    }
}

/// Appends the three little-endian bytes of `v`'s low 24 bits.
pub fn push_le24(out: &mut Vec<u8>, v: u32)
    ensures
        final(out)@ == old(out)@ + le24_bytes(v),
{
    proof {
        assert((v & 0xff) < 0x100 && ((v >> 8) & 0xff) < 0x100 && ((v >> 16) & 0xff) < 0x100)
            by (bit_vector);
    }
    out.push((v & 0xff) as u8);
    out.push(((v >> 8) & 0xff) as u8);
    out.push(((v >> 16) & 0xff) as u8);
    proof {
        assert(out@ =~= old(out)@ + le24_bytes(v));
    }
}

/// Appends the four little-endian bytes of `v`.
pub fn push_le32(out: &mut Vec<u8>, v: u32)
    ensures
        final(out)@ == old(out)@ + le32_bytes(v),
{
    proof {
        assert((v & 0xff) < 0x100 && ((v >> 8) & 0xff) < 0x100 && ((v >> 16) & 0xff) < 0x100 && ((v
            >> 24) & 0xff) < 0x100) by (bit_vector);
    }
    out.push((v & 0xff) as u8);
    out.push(((v >> 8) & 0xff) as u8);
    out.push(((v >> 16) & 0xff) as u8);
    out.push(((v >> 24) & 0xff) as u8);
    proof {
        assert(out@ =~= old(out)@ + le32_bytes(v));
    }
}

/// Appends all of `data` to `out`.
pub(crate) fn push_all(out: &mut Vec<u8>, data: &Vec<u8>)
    ensures
        final(out)@ == old(out)@ + data@,
{
    proof {
        assert(data.len() == data@.len());
        assert(out@ =~= old(out)@ + data@.take(0));
    }
    let mut i: usize = 0;
    while i < data.len()
        invariant
            i <= data@.len(),
            data@.len() <= usize::MAX,
            out@ == old(out)@ + data@.take(i as int),
        decreases data@.len() - i,
    {
        out.push(data[i]);
        proof {
            assert(out@ =~= old(out)@ + data@.take(i + 1 as int));
        }
        i = i + 1;
    }
    proof {
        assert(out@ =~= old(out)@ + data@);
    }
}

} // verus!
