//! Reply shapes and their encoding.
//!
//! A reply starts with a status byte — Ack (0x06) or Nak (0x15) — followed
//! by a payload whose size is a pure function of the variant. Encoding into
//! a caller-supplied buffer checks the destination first and reports a
//! sizing defect instead of writing a truncated reply.

use vstd::prelude::*;
use crate::constants::{BusType, MAX_BUFFER_SIZE};
use crate::data_utils::{le16_bytes, le24_bytes, le32_bytes, push_le16, push_le24, push_le32};
use crate::error::DataError;

verus! {

/// Protocol status codes: Ack reports success, Nak failure.
#[derive(Clone, Copy, Debug, PartialEq, Eq, Structural)]
pub enum ResponseType {
    Ack,
    Nak,
}

/// The wire byte of a status code.
pub open spec fn status_byte(res: ResponseType) -> u8 {
    match res {
        ResponseType::Ack => 0x06,
        ResponseType::Nak => 0x15,
    }
}

/// One reply per reply shape, carrying its status and payload.
#[derive(Clone, Debug, PartialEq)]
pub enum ResponsePacket {
    Nop,
    QIface { iface_version: u16 },
    QCmdMap { cmd_map: Vec<u8> },
    QPgmName { pgm_name: Vec<u8> },
    QSerBuf { size: u16 },
    QBusType { bus_type: BusType },
    QOpBuf { size: u16 },
    QWrnMaxLen { size: u32 },
    SyncNop,
    SBusType { res: ResponseType },
    SpiOp { res: ResponseType, rlen: usize, data: Vec<u8> },
    SSpiFreq { res: ResponseType, set_freq: u32 },
    SPinState { res: ResponseType },
}

impl ResponsePacket {
    /// Largest encoded reply in this profile: the 33-byte command map reply
    /// and the SPI data reply at its payload bound.
    pub const MAX_SIZE: usize = 129;

    /// A reply whose payload fits its wire field: the command map is 32
    /// bytes, the programmer name 16, the write-length limit 24 bits, and
    /// an SPI data reply carries at most the negotiated maximum — none at
    /// all when it reports failure.
    pub open spec fn wf(self) -> bool {
        match self {
            ResponsePacket::QCmdMap { cmd_map } => cmd_map@.len() == 32,
            ResponsePacket::QPgmName { pgm_name } => pgm_name@.len() == 16,
            ResponsePacket::QWrnMaxLen { size } => size < 0x1000000,
            ResponsePacket::SpiOp { res, rlen, data } => rlen == data@.len() && data@.len()
                <= MAX_BUFFER_SIZE && (res is Nak ==> rlen == 0),
            _ => true,
        }
    }

    /// The exact byte sequence this reply puts on the wire. Variable-size
    /// payloads are present only under an Ack status.
    pub open spec fn packet_bytes(self) -> Seq<u8> {
        match self {
            ResponsePacket::Nop => seq![0x06u8],
            ResponsePacket::QIface { iface_version } => seq![0x06u8] + le16_bytes(iface_version),
            ResponsePacket::QCmdMap { cmd_map } => seq![0x06u8] + cmd_map@,
            ResponsePacket::QPgmName { pgm_name } => seq![0x06u8] + pgm_name@,
            ResponsePacket::QSerBuf { size } => seq![0x06u8] + le16_bytes(size),
            ResponsePacket::QBusType { bus_type } => seq![0x06u8, bus_type.0],
            ResponsePacket::QOpBuf { size } => seq![0x06u8] + le16_bytes(size),
            ResponsePacket::QWrnMaxLen { size } => seq![0x06u8] + le24_bytes(size),
            ResponsePacket::SyncNop => seq![0x06u8, 0x15u8],
            ResponsePacket::SBusType { res } => seq![status_byte(res)],
            ResponsePacket::SpiOp { res, rlen, data } => if res is Ack {
                seq![0x06u8] + data@
            } else {
                seq![0x15u8]
            },
            ResponsePacket::SSpiFreq { res, set_freq } => if res is Ack {
                seq![0x06u8] + le32_bytes(set_freq)
            } else {
                seq![0x15u8]
            },
            ResponsePacket::SPinState { res } => seq![status_byte(res)],
        }
    }

    /// The encoded size of this reply, computable without encoding it.
    pub open spec fn size_spec(self) -> int {
        match self {
            ResponsePacket::Nop => 1,
            ResponsePacket::QIface { .. } => 3,
            ResponsePacket::QCmdMap { .. } => 33,
            ResponsePacket::QPgmName { .. } => 17,
            ResponsePacket::QSerBuf { .. } => 3,
            ResponsePacket::QBusType { .. } => 2,
            ResponsePacket::QOpBuf { .. } => 3,
            ResponsePacket::QWrnMaxLen { .. } => 4,
            ResponsePacket::SyncNop => 2,
            ResponsePacket::SBusType { .. } => 1,
            ResponsePacket::SpiOp { res, rlen, .. } => if res is Ack {
                1 + rlen
            } else {
                1
            },
            ResponsePacket::SSpiFreq { res, .. } => if res is Ack {
                5
            } else {
                1
            },
            ResponsePacket::SPinState { .. } => 1,
        }
    }

    /// Computes the encoded size of this reply.
    pub fn packet_size(&self) -> (r: usize)
        requires
            self.wf(),
        ensures
            r == self.size_spec(),
    {
        match self {
            ResponsePacket::Nop => 1,
            ResponsePacket::QIface { .. } => 3,
            ResponsePacket::QCmdMap { .. } => 33,
            ResponsePacket::QPgmName { .. } => 17,
            ResponsePacket::QSerBuf { .. } => 3,
            ResponsePacket::QBusType { .. } => 2,
            ResponsePacket::QOpBuf { .. } => 3,
            ResponsePacket::QWrnMaxLen { .. } => 4,
            ResponsePacket::SyncNop => 2,
            ResponsePacket::SBusType { .. } => 1,
            ResponsePacket::SpiOp { res, rlen, .. } => match res {
                ResponseType::Ack => 1 + *rlen,
                ResponseType::Nak => 1,
            },
            ResponsePacket::SSpiFreq { res, .. } => match res {
                ResponseType::Ack => 5,
                ResponseType::Nak => 1,
            },
            ResponsePacket::SPinState { .. } => 1,
        }
    }

    /// Encodes this reply into a fresh vector.
    pub fn encode(&self) -> (r: Vec<u8>)
        requires
            self.wf(),
        ensures
            r@ == self.packet_bytes(),
    {
        let mut out: Vec<u8> = Vec::new();
        match self {
            ResponsePacket::Nop => {
                out.push(0x06);
                proof {
                    assert(out@ =~= self.packet_bytes());
                }
            },
            ResponsePacket::QIface { iface_version } => {
                out.push(0x06);
                push_le16(&mut out, *iface_version);
                proof {
                    assert(out@ =~= self.packet_bytes());
                }
            },
            ResponsePacket::QCmdMap { cmd_map } => {
                out.push(0x06);
                crate::data_utils::push_all(&mut out, cmd_map);
                proof {
                    assert(out@ =~= self.packet_bytes());
                }
            },
            ResponsePacket::QPgmName { pgm_name } => {
                out.push(0x06);
                crate::data_utils::push_all(&mut out, pgm_name);
                proof {
                    assert(out@ =~= self.packet_bytes());
                }
            },
            ResponsePacket::QSerBuf { size } => {
                out.push(0x06);
                push_le16(&mut out, *size);
                proof {
                    assert(out@ =~= self.packet_bytes());
                }
            },
            ResponsePacket::QBusType { bus_type } => {
                out.push(0x06);
                out.push(bus_type.0);
                proof {
                    assert(out@ =~= self.packet_bytes());
                }
            },
            ResponsePacket::QOpBuf { size } => {
                out.push(0x06);
                push_le16(&mut out, *size);
                proof {
                    assert(out@ =~= self.packet_bytes());
                }
            },
            ResponsePacket::QWrnMaxLen { size } => {
                out.push(0x06);
                push_le24(&mut out, *size);
                proof {
                    assert(out@ =~= self.packet_bytes());
                }
            },
            ResponsePacket::SyncNop => {
                out.push(0x06);
                out.push(0x15);
                proof {
                    assert(out@ =~= self.packet_bytes());
                }
            },
            ResponsePacket::SBusType { res } => {
                out.push(
                    match res {
                        ResponseType::Ack => 0x06,
                        ResponseType::Nak => 0x15,
                    },
                );
                proof {
                    assert(out@ =~= self.packet_bytes());
                }
            },
            ResponsePacket::SpiOp { res, rlen, data } => {
                match res {
                    ResponseType::Ack => {
                        out.push(0x06);
                        crate::data_utils::push_all(&mut out, data);
                    },
                    ResponseType::Nak => {
                        out.push(0x15);
                    },
                }
                proof {
                    assert(out@ =~= self.packet_bytes());
                }
            },
            ResponsePacket::SSpiFreq { res, set_freq } => {
                match res {
                    ResponseType::Ack => {
                        out.push(0x06);
                        push_le32(&mut out, *set_freq);
                    },
                    ResponseType::Nak => {
                        out.push(0x15);
                    },
                }
                proof {
                    assert(out@ =~= self.packet_bytes());
                }
            },
            ResponsePacket::SPinState { res } => {
                out.push(
                    match res {
                        ResponseType::Ack => 0x06,
                        ResponseType::Nak => 0x15,
                    },
                );
                proof {
                    assert(out@ =~= self.packet_bytes());
                }
            },
        }
        out
    }

    /// Encodes this reply into the front of `buf`, leaving the rest of the
    /// destination untouched. A destination shorter than the encoded size
    /// always yields the sizing error and leaves `buf` unchanged.
    pub fn to_bytes(&self, buf: &mut Vec<u8>) -> (r: Result<usize, DataError>)
        requires
            self.wf(),
        ensures
            r is Err <==> old(buf)@.len() < self.size_spec(),
            match r {
                Ok(n) => n == self.size_spec() && final(buf)@.len() == old(buf)@.len()
                    && final(buf)@ == self.packet_bytes() + old(buf)@.skip(self.size_spec()),
                Err(e) => e == (DataError::BufferTooSmall {
                    buf_size: old(buf)@.len() as usize,
                    required: self.size_spec() as usize,
                }) && *final(buf) == *old(buf),
            },
    {
        let packet_size = self.packet_size();
        let buf_size = buf.len();
        if buf_size < packet_size {
            return Err(DataError::BufferTooSmall { buf_size, required: packet_size });
        }
        let bytes = self.encode();
        proof {
            lemma_packet_size_matches(*self);
        }
        let mut i: usize = 0;
        while i < packet_size
            invariant
                i <= packet_size,
                packet_size == self.size_spec(),
                bytes@ == self.packet_bytes(),
                bytes@.len() == packet_size,
                buf@.len() == old(buf)@.len(),
                packet_size <= old(buf)@.len() <= usize::MAX,
                buf@ == bytes@.take(i as int) + old(buf)@.skip(i as int),
            decreases packet_size - i,
        {
            let b = bytes[i];
            buf.set(i, b);
            proof {
                assert(buf@ =~= bytes@.take(i + 1 as int) + old(buf)@.skip(i + 1 as int));
            }
            i = i + 1;
        }
        proof {
            assert(buf@ =~= self.packet_bytes() + old(buf)@.skip(self.size_spec()));
        }
        Ok(packet_size)
    }
}

/// Law: the encoded size a reply advertises is exactly the number of bytes
/// its encoding occupies.
pub proof fn lemma_packet_size_matches(p: ResponsePacket)
    requires
        p.wf(),
    ensures
        p.packet_bytes().len() == p.size_spec(),
{
}

} // verus!
