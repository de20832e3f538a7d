//! The protocol profile: advertised capabilities and the sizes the
//! dispatcher actually enforces. The command map, the buffer sizes and the
//! set of handled opcodes are kept consistent with one another.

use vstd::prelude::*;
use crate::data_utils::le32_bytes;

verus! {

/// Protocol version reported for an interface query.
pub const I_FACE_VERSION: u16 = 1;

/// A bus bitmask as it travels on the wire: bit 0 parallel, bit 1 LPC,
/// bit 2 FWH, bit 3 SPI. This device supports SPI alone.
#[derive(Clone, Copy, Debug, PartialEq, Eq, Structural)]
pub struct BusType(pub u8);

/// Bus support bitmask: bit 3 (SPI) only.
pub const SUPPORTED_BUS: u8 = 0x08;

/// Bitmap of the opcodes the dispatcher handles, one bit per opcode value:
/// the no-op, the seven metadata queries, the synchronization probe, bus
/// select, SPI transfer, SPI frequency and SPI pin state.
pub const CMD_MAP: u32 = 0x003d_01bf;

/// Largest SPI transfer payload accepted in either direction.
pub const MAX_BUFFER_SIZE: usize = 128;

/// Serial staging buffer size advertised to the host.
pub const SER_BUF_SIZE: usize = 1024;

/// Operation buffer size advertised to the host.
pub const OP_BUF_SIZE: usize = 1024;

/// The 16-byte programmer name field: "stm32-vserprog", zero-padded.
pub open spec fn pgm_name_seq() -> Seq<u8> {
    seq![
        0x73u8,
        0x74u8,
        0x6du8,
        0x33u8,
        0x32u8,
        0x2du8,
        0x76u8,
        0x73u8,
        0x65u8,
        0x72u8,
        0x70u8,
        0x72u8,
        0x6fu8,
        0x67u8,
        0u8,
        0u8,
    ]
}

/// Builds the programmer name field.
pub fn pgm_name_bytes() -> (r: Vec<u8>)
    ensures
        r@ == pgm_name_seq(),
{
    let mut out: Vec<u8> = Vec::new();
    out.push(0x73);
    out.push(0x74);
    out.push(0x6d);
    out.push(0x33);
    out.push(0x32);
    out.push(0x2d);
    out.push(0x76);
    out.push(0x73);
    out.push(0x65);
    out.push(0x72);
    out.push(0x70);
    out.push(0x72);
    out.push(0x6f);
    out.push(0x67);
    out.push(0);
    out.push(0);
    proof {
        assert(out@ =~= pgm_name_seq());
    }
    out
}

/// The 32-byte opcode support bitmap: the command map in little-endian
/// order followed by zeros.
pub open spec fn cmd_map_seq() -> Seq<u8> {
    le32_bytes(CMD_MAP) + Seq::new(28, |i: int| 0u8)
}

/// Builds the opcode support bitmap field.
pub fn cmd_map_bytes() -> (r: Vec<u8>)
    ensures
        r@ == cmd_map_seq(),
{
    let mut out: Vec<u8> = Vec::new();
    crate::data_utils::push_le32(&mut out, CMD_MAP);
    let mut i: usize = 0;
    while i < 28
        invariant
            i <= 28,
            out@ == le32_bytes(CMD_MAP) + Seq::new(i as nat, |j: int| 0u8),
        decreases 28 - i,
    {
        out.push(0);
        proof {
            assert(out@ =~= le32_bytes(CMD_MAP) + Seq::new((i + 1) as nat, |j: int| 0u8));
        }
        i = i + 1;
    }
    proof {
        assert(out@ =~= cmd_map_seq());
    }
    out
}

} // verus!
