//! The wire command format and its streaming decoder.
//!
//! Every command begins with one opcode byte; multi-byte integers are
//! little-endian; addresses are 3-byte fields; bulk payloads carry a 3-byte
//! count directly before the raw bytes. Decoding a prefix of the input
//! yields exactly one of: a complete command with the count of bytes it
//! occupies, "incomplete" when the prefix is valid but short, or a terminal
//! failure when the opcode byte is outside the known set.

use vstd::prelude::*;
use crate::address::Address;
use crate::constants::BusType;
use crate::data_utils::{
    le24_bytes,
    le32_bytes,
    lemma_le24_round_trip,
    lemma_le32_round_trip,
    push_le24,
    push_le32,
    read_u24,
    read_u32,
    u24_of,
    u32_of,
};
use crate::opcode::{opcode_from_byte, OpCode};

verus! {

/// One decoded command per opcode, carrying that opcode's payload.
/// A command is created by a successful decode and consumed by the
/// dispatcher; it is never retained.
#[derive(Clone, Debug, PartialEq)]
pub enum Command {
    Nop,
    QIface,
    QCmdMap,
    QPgmName,
    QSerBuf,
    QBusType,
    QChipSize,
    QOpBuf,
    QWrnMaxLen,
    RByte(Address),
    RNBytes { addr: Address, n: u32 },
    OInit,
    OWriteB { addr: Address, data: u8 },
    OWriteN { addr: Address, data: Vec<u8> },
    ODelay(u32),
    OExec,
    SyncNop,
    QRdnMaxLen,
    SBusType(BusType),
    OSpiOp { rlen: u32, data: Vec<u8> },
    SSpiFreq(u32),
    SPinState(bool),
}

/// The mathematical value of a command: payload bytes as sequences, fields
/// as plain integers.
#[verifier::ext_equal]
pub enum CommandV {
    Nop,
    QIface,
    QCmdMap,
    QPgmName,
    QSerBuf,
    QBusType,
    QChipSize,
    QOpBuf,
    QWrnMaxLen,
    RByte { addr: u32 },
    RNBytes { addr: u32, n: u32 },
    OInit,
    OWriteB { addr: u32, data: u8 },
    OWriteN { addr: u32, data: Seq<u8> },
    ODelay { us: u32 },
    OExec,
    SyncNop,
    QRdnMaxLen,
    SBusType { flags: u8 },
    OSpiOp { rlen: u32, data: Seq<u8> },
    SSpiFreq { hz: u32 },
    SPinState { drive: bool },
}

impl View for Command {
    type V = CommandV;

    open spec fn view(&self) -> CommandV {
        match self {
            Command::Nop => CommandV::Nop,
            Command::QIface => CommandV::QIface,
            Command::QCmdMap => CommandV::QCmdMap,
            Command::QPgmName => CommandV::QPgmName,
            Command::QSerBuf => CommandV::QSerBuf,
            Command::QBusType => CommandV::QBusType,
            Command::QChipSize => CommandV::QChipSize,
            Command::QOpBuf => CommandV::QOpBuf,
            Command::QWrnMaxLen => CommandV::QWrnMaxLen,
            Command::RByte(addr) => CommandV::RByte { addr: addr.0 },
            Command::RNBytes { addr, n } => CommandV::RNBytes { addr: addr.0, n: *n },
            Command::OInit => CommandV::OInit,
            Command::OWriteB { addr, data } => CommandV::OWriteB { addr: addr.0, data: *data },
            Command::OWriteN { addr, data } => CommandV::OWriteN { addr: addr.0, data: data@ },
            Command::ODelay(us) => CommandV::ODelay { us: *us },
            Command::OExec => CommandV::OExec,
            Command::SyncNop => CommandV::SyncNop,
            Command::QRdnMaxLen => CommandV::QRdnMaxLen,
            Command::SBusType(bt) => CommandV::SBusType { flags: bt.0 },
            Command::OSpiOp { rlen, data } => CommandV::OSpiOp { rlen: *rlen, data: data@ },
            Command::SSpiFreq(hz) => CommandV::SSpiFreq { hz: *hz },
            Command::SPinState(drive) => CommandV::SPinState { drive: *drive },
        }
    }
}

impl CommandV {
    /// A command whose fields fit their wire representation: addresses and
    /// bulk lengths are 24-bit values.
    pub open spec fn wf(self) -> bool {
        match self {
            CommandV::RByte { addr } => addr < 0x1000000,
            CommandV::RNBytes { addr, n } => addr < 0x1000000 && n < 0x1000000,
            CommandV::OWriteB { addr, data } => addr < 0x1000000,
            CommandV::OWriteN { addr, data } => addr < 0x1000000 && data.len() < 0x1000000,
            CommandV::OSpiOp { rlen, data } => rlen < 0x1000000 && data.len() < 0x1000000,
            _ => true,
        }
    }

    /// The exact byte sequence that encodes this command on the wire.
    pub open spec fn wire_bytes(self) -> Seq<u8> {
        match self {
            CommandV::Nop => seq![0x00u8],
            CommandV::QIface => seq![0x01u8],
            CommandV::QCmdMap => seq![0x02u8],
            CommandV::QPgmName => seq![0x03u8],
            CommandV::QSerBuf => seq![0x04u8],
            CommandV::QBusType => seq![0x05u8],
            CommandV::QChipSize => seq![0x06u8],
            CommandV::QOpBuf => seq![0x07u8],
            CommandV::QWrnMaxLen => seq![0x08u8],
            CommandV::RByte { addr } => seq![0x09u8] + le24_bytes(addr),
            CommandV::RNBytes { addr, n } => seq![0x0au8] + le24_bytes(addr) + le24_bytes(n),
            CommandV::OInit => seq![0x0bu8],
            CommandV::OWriteB { addr, data } => seq![0x0cu8] + le24_bytes(addr) + seq![data],
            CommandV::OWriteN { addr, data } => seq![0x0du8] + le24_bytes(data.len() as u32)
                + le24_bytes(addr) + data,
            CommandV::ODelay { us } => seq![0x0eu8] + le32_bytes(us),
            CommandV::OExec => seq![0x0fu8],
            CommandV::SyncNop => seq![0x10u8],
            CommandV::QRdnMaxLen => seq![0x11u8],
            CommandV::SBusType { flags } => seq![0x12u8, flags],
            CommandV::OSpiOp { rlen, data } => seq![0x13u8] + le24_bytes(data.len() as u32)
                + le24_bytes(rlen) + data,
            CommandV::SSpiFreq { hz } => seq![0x14u8] + le32_bytes(hz),
            CommandV::SPinState { drive } => seq![
                0x15u8,
                if drive {
                    1u8
                } else {
                    0u8
                },
            ],
        }
    }
}

/// What decoding a given input prefix yields.
#[verifier::ext_equal]
pub enum ParseV {
    Complete { cmd: CommandV, used: int },
    Incomplete,
    Invalid,
}

/// The streaming decode of `input`: one complete command and the count of
/// bytes it occupies, or "incomplete" when more bytes must arrive first, or
/// a terminal failure when the opcode byte is unknown.
pub open spec fn parse_spec(input: Seq<u8>) -> ParseV {
    if input.len() < 1 {
        ParseV::Incomplete
    } else {
        match opcode_from_byte(input[0]) {
            Option::None => ParseV::Invalid,
            Option::Some(op) => match op {
                OpCode::Nop => ParseV::Complete { cmd: CommandV::Nop, used: 1 },
                OpCode::QIface => ParseV::Complete { cmd: CommandV::QIface, used: 1 },
                OpCode::QCmdMap => ParseV::Complete { cmd: CommandV::QCmdMap, used: 1 },
                OpCode::QPgmName => ParseV::Complete { cmd: CommandV::QPgmName, used: 1 },
                OpCode::QSerBuf => ParseV::Complete { cmd: CommandV::QSerBuf, used: 1 },
                OpCode::QBusType => ParseV::Complete { cmd: CommandV::QBusType, used: 1 },
                OpCode::QChipSize => ParseV::Complete { cmd: CommandV::QChipSize, used: 1 },
                OpCode::QOpBuf => ParseV::Complete { cmd: CommandV::QOpBuf, used: 1 },
                OpCode::QWrnMaxLen => ParseV::Complete { cmd: CommandV::QWrnMaxLen, used: 1 },
                OpCode::RByte => if input.len() < 4 {
                    ParseV::Incomplete
                } else {
                    ParseV::Complete {
                        cmd: CommandV::RByte { addr: u24_of(input[1], input[2], input[3]) },
                        used: 4,
                    }
                },
                OpCode::RNBytes => if input.len() < 7 {
                    ParseV::Incomplete
                } else {
                    ParseV::Complete {
                        cmd: CommandV::RNBytes {
                            addr: u24_of(input[1], input[2], input[3]),
                            n: u24_of(input[4], input[5], input[6]),
                        },
                        used: 7,
                    }
                },
                OpCode::OInit => ParseV::Complete { cmd: CommandV::OInit, used: 1 },
                OpCode::OWriteB => if input.len() < 5 {
                    ParseV::Incomplete
                } else {
                    ParseV::Complete {
                        cmd: CommandV::OWriteB {
                            addr: u24_of(input[1], input[2], input[3]),
                            data: input[4],
                        },
                        used: 5,
                    }
                },
                OpCode::OWriteN => if input.len() < 7 {
                    ParseV::Incomplete
                } else {
                    let n = u24_of(input[1], input[2], input[3]) as int;
                    if input.len() < 7 + n {
                        ParseV::Incomplete
                    } else {
                        ParseV::Complete {
                            cmd: CommandV::OWriteN {
                                addr: u24_of(input[4], input[5], input[6]),
                                data: input.subrange(7, 7 + n),
                            },
                            used: 7 + n,
                        }
                    }
                },
                OpCode::ODelay => if input.len() < 5 {
                    ParseV::Incomplete
                } else {
                    ParseV::Complete {
                        cmd: CommandV::ODelay {
                            us: u32_of(input[1], input[2], input[3], input[4]),
                        },
                        used: 5,
                    }
                },
                OpCode::OExec => ParseV::Complete { cmd: CommandV::OExec, used: 1 },
                OpCode::SyncNop => ParseV::Complete { cmd: CommandV::SyncNop, used: 1 },
                OpCode::QRdnMaxLen => ParseV::Complete { cmd: CommandV::QRdnMaxLen, used: 1 },
                OpCode::SBusType => if input.len() < 2 {
                    ParseV::Incomplete
                } else {
                    ParseV::Complete {
                        cmd: CommandV::SBusType { flags: input[1] },
                        used: 2,
                    }
                },
                OpCode::OSpiOp => if input.len() < 7 {
                    ParseV::Incomplete
                } else {
                    let slen = u24_of(input[1], input[2], input[3]) as int;
                    if input.len() < 7 + slen {
                        ParseV::Incomplete
                    } else {
                        ParseV::Complete {
                            cmd: CommandV::OSpiOp {
                                rlen: u24_of(input[4], input[5], input[6]),
                                data: input.subrange(7, 7 + slen),
                            },
                            used: 7 + slen,
                        }
                    }
                },
                OpCode::SSpiFreq => if input.len() < 5 {
                    ParseV::Incomplete
                } else {
                    ParseV::Complete {
                        cmd: CommandV::SSpiFreq {
                            hz: u32_of(input[1], input[2], input[3], input[4]),
                        },
                        used: 5,
                    }
                },
                OpCode::SPinState => if input.len() < 2 {
                    ParseV::Incomplete
                } else {
                    ParseV::Complete {
                        cmd: CommandV::SPinState { drive: input[1] != 0 },
                        used: 2,
                    }
                },
            },
        }
    }
}

/// Result of one decode attempt over a byte prefix.
#[derive(Clone, Debug, PartialEq)]
pub enum ParseResult {
    Complete { cmd: Command, used: usize },
    Incomplete,
    Invalid,
}

/// The decode attempt `r` is exactly what `parse_spec` says of `input`.
pub open spec fn parse_matches(r: ParseResult, input: Seq<u8>) -> bool {
    match r {
        ParseResult::Complete { cmd, used } => parse_spec(input) == (ParseV::Complete {
            cmd: cmd@,
            used: used as int,
        }),
        ParseResult::Incomplete => parse_spec(input) is Incomplete,
        ParseResult::Invalid => parse_spec(input) is Invalid,
    }
}

/// Copies `count` bytes of `input` starting at `from` into a fresh vector.
fn copy_range(input: &Vec<u8>, from: usize, count: usize) -> (r: Vec<u8>)
    requires
        from + count <= input@.len(),
    ensures
        r@ == input@.subrange(from as int, from + count),
{
    proof {
        assert(input.len() == input@.len());
    }
    let mut out: Vec<u8> = Vec::new();
    let mut i: usize = 0;
    while i < count
        invariant
            i <= count,
            from + count <= input@.len(),
            input@.len() <= usize::MAX,
            out@ == input@.subrange(from as int, from + i),
        decreases count - i,
    {
        out.push(input[from + i]);
        proof {
            assert(out@ =~= input@.subrange(from as int, from + i + 1));
        }
        i = i + 1;
    }
    out
}

impl Command {
    /// Decodes the read-one-byte command's address payload.
    fn rbyte(input: &Vec<u8>) -> (r: ParseResult)
        requires
            input@.len() >= 1,
            opcode_from_byte(input@[0]) == Some(OpCode::RByte),
        ensures
            parse_matches(r, input@),
    {
        if input.len() < 4 {
            ParseResult::Incomplete
        } else {
            let addr = read_u24(input, 1);
            ParseResult::Complete { cmd: Command::RByte(Address(addr)), used: 4 }
        }
    }

    /// Decodes the read-many command's address and count payload.
    fn rnbytes(input: &Vec<u8>) -> (r: ParseResult)
        requires
            input@.len() >= 1,
            opcode_from_byte(input@[0]) == Some(OpCode::RNBytes),
        ensures
            parse_matches(r, input@),
    {
        if input.len() < 7 {
            ParseResult::Incomplete
        } else {
            let addr = read_u24(input, 1);
            let n = read_u24(input, 4);
            ParseResult::Complete { cmd: Command::RNBytes { addr: Address(addr), n }, used: 7 }
        }
    }

    /// Decodes the write-one-byte command's address and data payload.
    fn owriteb(input: &Vec<u8>) -> (r: ParseResult)
        requires
            input@.len() >= 1,
            opcode_from_byte(input@[0]) == Some(OpCode::OWriteB),
        ensures
            parse_matches(r, input@),
    {
        if input.len() < 5 {
            ParseResult::Incomplete
        } else {
            let addr = read_u24(input, 1);
            let data = input[4];
            ParseResult::Complete { cmd: Command::OWriteB { addr: Address(addr), data }, used: 5 }
        }
    }

    /// Decodes the write-many command: count, address, then count raw bytes.
    fn owriten(input: &Vec<u8>) -> (r: ParseResult)
        requires
            input@.len() >= 1,
            opcode_from_byte(input@[0]) == Some(OpCode::OWriteN),
        ensures
            parse_matches(r, input@),
    {
        if input.len() < 7 {
            return ParseResult::Incomplete;
        }
        let n32 = read_u24(input, 1);
        let n = n32 as usize;
        if input.len() - 7 < n {
            return ParseResult::Incomplete;
        }
        let addr = read_u24(input, 4);
        let data = copy_range(input, 7, n);
        ParseResult::Complete { cmd: Command::OWriteN { addr: Address(addr), data }, used: 7 + n }
    }

    /// Decodes the delay command's microsecond payload.
    fn odelay(input: &Vec<u8>) -> (r: ParseResult)
        requires
            input@.len() >= 1,
            opcode_from_byte(input@[0]) == Some(OpCode::ODelay),
        ensures
            parse_matches(r, input@),
    {
        if input.len() < 5 {
            ParseResult::Incomplete
        } else {
            let us = read_u32(input, 1);
            ParseResult::Complete { cmd: Command::ODelay(us), used: 5 }
        }
    }

    /// Decodes the bus-select command's flags payload.
    fn sbustype(input: &Vec<u8>) -> (r: ParseResult)
        requires
            input@.len() >= 1,
            opcode_from_byte(input@[0]) == Some(OpCode::SBusType),
        ensures
            parse_matches(r, input@),
    {
        if input.len() < 2 {
            ParseResult::Incomplete
        } else {
            ParseResult::Complete { cmd: Command::SBusType(BusType(input[1])), used: 2 }
        }
    }

    /// Decodes the SPI transfer command: write count, read count, then the
    /// write-count raw bytes to shift out.
    fn ospiop(input: &Vec<u8>) -> (r: ParseResult)
        requires
            input@.len() >= 1,
            opcode_from_byte(input@[0]) == Some(OpCode::OSpiOp),
        ensures
            parse_matches(r, input@),
    {
        if input.len() < 7 {
            return ParseResult::Incomplete;
        }
        let slen32 = read_u24(input, 1);
        let slen = slen32 as usize;
        if input.len() - 7 < slen {
            return ParseResult::Incomplete;
        }
        let rlen = read_u24(input, 4);
        let data = copy_range(input, 7, slen);
        ParseResult::Complete { cmd: Command::OSpiOp { rlen, data }, used: 7 + slen }
    }

    /// Decodes the SPI frequency command's hertz payload.
    fn sspifreq(input: &Vec<u8>) -> (r: ParseResult)
        requires
            input@.len() >= 1,
            opcode_from_byte(input@[0]) == Some(OpCode::SSpiFreq),
        ensures
            parse_matches(r, input@),
    {
        if input.len() < 5 {
            ParseResult::Incomplete
        } else {
            let hz = read_u32(input, 1);
            ParseResult::Complete { cmd: Command::SSpiFreq(hz), used: 5 }
        }
    }

    /// Decodes the pin-state command: zero releases the pins, anything else
    /// drives them.
    fn spinstate(input: &Vec<u8>) -> (r: ParseResult)
        requires
            input@.len() >= 1,
            opcode_from_byte(input@[0]) == Some(OpCode::SPinState),
        ensures
            parse_matches(r, input@),
    {
        if input.len() < 2 {
            ParseResult::Incomplete
        } else {
            ParseResult::Complete { cmd: Command::SPinState(input[1] != 0), used: 2 }
        }
    }

    /// Decodes one command from a prefix of `input`. The attempt consumes
    /// nothing by itself: the caller advances its cursor by the returned
    /// count only on a complete decode.
    pub fn parse(input: &Vec<u8>) -> (r: ParseResult)
        ensures
            parse_matches(r, input@),
    {
        if input.len() == 0 {
            return ParseResult::Incomplete;
        }
        match OpCode::from_u8(input[0]) {
            Option::None => ParseResult::Invalid,
            Option::Some(op) => match op {
                OpCode::Nop => ParseResult::Complete { cmd: Command::Nop, used: 1 },
                OpCode::QIface => ParseResult::Complete { cmd: Command::QIface, used: 1 },
                OpCode::QCmdMap => ParseResult::Complete { cmd: Command::QCmdMap, used: 1 },
                OpCode::QPgmName => ParseResult::Complete { cmd: Command::QPgmName, used: 1 },
                OpCode::QSerBuf => ParseResult::Complete { cmd: Command::QSerBuf, used: 1 },
                OpCode::QBusType => ParseResult::Complete { cmd: Command::QBusType, used: 1 },
                OpCode::QChipSize => ParseResult::Complete { cmd: Command::QChipSize, used: 1 },
                OpCode::QOpBuf => ParseResult::Complete { cmd: Command::QOpBuf, used: 1 },
                OpCode::QWrnMaxLen => ParseResult::Complete { cmd: Command::QWrnMaxLen, used: 1 },
                OpCode::RByte => Self::rbyte(input),
                OpCode::RNBytes => Self::rnbytes(input),
                OpCode::OInit => ParseResult::Complete { cmd: Command::OInit, used: 1 },
                OpCode::OWriteB => Self::owriteb(input),
                OpCode::OWriteN => Self::owriten(input),
                OpCode::ODelay => Self::odelay(input),
                OpCode::OExec => ParseResult::Complete { cmd: Command::OExec, used: 1 },
                OpCode::SyncNop => ParseResult::Complete { cmd: Command::SyncNop, used: 1 },
                OpCode::QRdnMaxLen => ParseResult::Complete { cmd: Command::QRdnMaxLen, used: 1 },
                OpCode::SBusType => Self::sbustype(input),
                OpCode::OSpiOp => Self::ospiop(input),
                OpCode::SSpiFreq => Self::sspifreq(input),
                OpCode::SPinState => Self::spinstate(input),
            },
        }
    }

    /// Encodes this command into the exact byte sequence its opcode's
    /// decoder accepts.
    pub fn encode(&self) -> (r: Vec<u8>)
        requires
            self@.wf(),
        ensures
            r@ == self@.wire_bytes(),
    {
        let mut out: Vec<u8> = Vec::new();
        match self {
            Command::Nop => {
                out.push(0x00);
                proof {
                    assert(out@ =~= self@.wire_bytes());
                }
            },
            Command::QIface => {
                out.push(0x01);
                proof {
                    assert(out@ =~= self@.wire_bytes());
                }
            },
            Command::QCmdMap => {
                out.push(0x02);
                proof {
                    assert(out@ =~= self@.wire_bytes());
                }
            },
            Command::QPgmName => {
                out.push(0x03);
                proof {
                    assert(out@ =~= self@.wire_bytes());
                }
            },
            Command::QSerBuf => {
                out.push(0x04);
                proof {
                    assert(out@ =~= self@.wire_bytes());
                }
            },
            Command::QBusType => {
                out.push(0x05);
                proof {
                    assert(out@ =~= self@.wire_bytes());
                }
            },
            Command::QChipSize => {
                out.push(0x06);
                proof {
                    assert(out@ =~= self@.wire_bytes());
                }
            },
            Command::QOpBuf => {
                out.push(0x07);
                proof {
                    assert(out@ =~= self@.wire_bytes());
                }
            },
            Command::QWrnMaxLen => {
                out.push(0x08);
                proof {
                    assert(out@ =~= self@.wire_bytes());
                }
            },
            Command::RByte(addr) => {
                out.push(0x09);
                push_le24(&mut out, addr.0);
                proof {
                    assert(out@ =~= self@.wire_bytes());
                }
            },
            Command::RNBytes { addr, n } => {
                out.push(0x0a);
                push_le24(&mut out, addr.0);
                push_le24(&mut out, *n);
                proof {
                    assert(out@ =~= self@.wire_bytes());
                }
            },
            Command::OInit => {
                out.push(0x0b);
                proof {
                    assert(out@ =~= self@.wire_bytes());
                }
            },
            Command::OWriteB { addr, data } => {
                out.push(0x0c);
                push_le24(&mut out, addr.0);
                out.push(*data);
                proof {
                    assert(out@ =~= self@.wire_bytes());
                }
            },
            Command::OWriteN { addr, data } => {
                out.push(0x0d);
                push_le24(&mut out, data.len() as u32);
                push_le24(&mut out, addr.0);
                crate::data_utils::push_all(&mut out, data);
                proof {
                    assert(out@ =~= self@.wire_bytes());
                }
            },
            Command::ODelay(us) => {
                out.push(0x0e);
                push_le32(&mut out, *us);
                proof {
                    assert(out@ =~= self@.wire_bytes());
                }
            },
            Command::OExec => {
                out.push(0x0f);
                proof {
                    assert(out@ =~= self@.wire_bytes());
                }
            },
            Command::SyncNop => {
                out.push(0x10);
                proof {
                    assert(out@ =~= self@.wire_bytes());
                }
            },
            Command::QRdnMaxLen => {
                out.push(0x11);
                proof {
                    assert(out@ =~= self@.wire_bytes());
                }
            },
            Command::SBusType(bt) => {
                out.push(0x12);
                out.push(bt.0);
                proof {
                    assert(out@ =~= self@.wire_bytes());
                }
            },
            Command::OSpiOp { rlen, data } => {
                out.push(0x13);
                push_le24(&mut out, data.len() as u32);
                push_le24(&mut out, *rlen);
                crate::data_utils::push_all(&mut out, data);
                proof {
                    assert(out@ =~= self@.wire_bytes());
                }
            },
            Command::SSpiFreq(hz) => {
                out.push(0x14);
                push_le32(&mut out, *hz);
                proof {
                    assert(out@ =~= self@.wire_bytes());
                }
            },
            Command::SPinState(drive) => {
                out.push(0x15);
                out.push(
                    if *drive {
                        1
                    } else {
                        0
                    },
                );
                proof {
                    assert(out@ =~= self@.wire_bytes());
                }
            },
        }
        out
    }
}

/// Law: every well-formed command decodes from its own encoding back to
/// itself, consuming exactly the encoded length.
pub proof fn lemma_wire_round_trip(c: CommandV)
    requires
        c.wf(),
    ensures
        parse_spec(c.wire_bytes()) == (ParseV::Complete {
            cmd: c,
            used: c.wire_bytes().len() as int,
        }),
{
    let w = c.wire_bytes();
    match c {
        CommandV::RByte { addr } => {
            assert(w[1] == le24_bytes(addr)[0] && w[2] == le24_bytes(addr)[1] && w[3]
                == le24_bytes(addr)[2]);
            lemma_le24_round_trip(addr);
        },
        CommandV::RNBytes { addr, n } => {
            assert(w[1] == le24_bytes(addr)[0] && w[2] == le24_bytes(addr)[1] && w[3]
                == le24_bytes(addr)[2]);
            assert(w[4] == le24_bytes(n)[0] && w[5] == le24_bytes(n)[1] && w[6] == le24_bytes(
                n,
            )[2]);
            lemma_le24_round_trip(addr);
            lemma_le24_round_trip(n);
        },
        CommandV::OWriteB { addr, data } => {
            assert(w[1] == le24_bytes(addr)[0] && w[2] == le24_bytes(addr)[1] && w[3]
                == le24_bytes(addr)[2]);
            assert(w[4] == data);
            lemma_le24_round_trip(addr);
        },
        CommandV::OWriteN { addr, data } => {
            let ln = data.len() as u32;
            assert(w[1] == le24_bytes(ln)[0] && w[2] == le24_bytes(ln)[1] && w[3] == le24_bytes(
                ln,
            )[2]);
            assert(w[4] == le24_bytes(addr)[0] && w[5] == le24_bytes(addr)[1] && w[6]
                == le24_bytes(addr)[2]);
            lemma_le24_round_trip(ln);
            lemma_le24_round_trip(addr);
            assert(w.subrange(7, 7 + data.len() as int) =~= data);
            assert(parse_spec(w) =~= (ParseV::Complete { cmd: c, used: w.len() as int }));
        },
        CommandV::ODelay { us } => {
            assert(w[1] == le32_bytes(us)[0] && w[2] == le32_bytes(us)[1] && w[3] == le32_bytes(
                us,
            )[2] && w[4] == le32_bytes(us)[3]);
            lemma_le32_round_trip(us);
        },
        CommandV::SBusType { flags } => {
            assert(w[1] == flags);
        },
        CommandV::OSpiOp { rlen, data } => {
            let ln = data.len() as u32;
            assert(w[1] == le24_bytes(ln)[0] && w[2] == le24_bytes(ln)[1] && w[3] == le24_bytes(
                ln,
            )[2]);
            assert(w[4] == le24_bytes(rlen)[0] && w[5] == le24_bytes(rlen)[1] && w[6]
                == le24_bytes(rlen)[2]);
            lemma_le24_round_trip(ln);
            lemma_le24_round_trip(rlen);
            assert(w.subrange(7, 7 + data.len() as int) =~= data);
            assert(parse_spec(w) =~= (ParseV::Complete { cmd: c, used: w.len() as int }));
        },
        CommandV::SSpiFreq { hz } => {
            assert(w[1] == le32_bytes(hz)[0] && w[2] == le32_bytes(hz)[1] && w[3] == le32_bytes(
                hz,
            )[2] && w[4] == le32_bytes(hz)[3]);
            lemma_le32_round_trip(hz);
        },
        CommandV::SPinState { drive } => {
            assert(w[1] == if drive {
                1u8
            } else {
                0u8
            });
        },
        _ => {
        },
    }
}

/// A complete decode consumes at least the opcode byte and never more than
/// the input it was given.
pub proof fn lemma_parse_used_in_range(input: Seq<u8>)
    ensures
        parse_spec(input) matches ParseV::Complete { used, .. } ==> 1 <= used <= input.len(),
{
}

/// Law: any strict prefix of a well-formed command's encoding decodes to
/// "incomplete" — bytes held back never turn into a spurious failure.
pub proof fn lemma_wire_prefix_incomplete(c: CommandV, n: int)
    requires
        c.wf(),
        0 <= n < c.wire_bytes().len(),
    ensures
        parse_spec(c.wire_bytes().take(n)) is Incomplete,
{
    let w = c.wire_bytes();
    let p = w.take(n);
    if n == 0 {
        assert(p.len() == 0);
    } else {
        assert(p[0] == w[0]);
        match c {
            CommandV::OWriteN { addr, data } => {
                let ln = data.len() as u32;
                if n >= 7 {
                    assert(p[1] == le24_bytes(ln)[0] && p[2] == le24_bytes(ln)[1] && p[3]
                        == le24_bytes(ln)[2]);
                    lemma_le24_round_trip(ln);
                }
            },
            CommandV::OSpiOp { rlen, data } => {
                let ln = data.len() as u32;
                if n >= 7 {
                    assert(p[1] == le24_bytes(ln)[0] && p[2] == le24_bytes(ln)[1] && p[3]
                        == le24_bytes(ln)[2]);
                    lemma_le24_round_trip(ln);
                }
            },
            _ => {
            },
        }
    }
}

} // verus!
