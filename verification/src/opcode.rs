//! The closed set of command opcodes. A wire byte is mapped into the set by
//! an explicit bounded match — never by reinterpreting the raw byte — so a
//! byte outside the known range is rejected instead of becoming an invalid
//! enumeration value.

use vstd::prelude::*;

verus! {

/// One opcode per command kind, covering wire bytes 0x00 through 0x15.
#[derive(Clone, Copy, Debug, PartialEq, Eq, Structural)]
pub enum OpCode {
    Nop,
    QIface,
    QCmdMap,
    QPgmName,
    QSerBuf,
    QBusType,
    QChipSize,
    QOpBuf,
    QWrnMaxLen,
    RByte,
    RNBytes,
    OInit,
    OWriteB,
    OWriteN,
    ODelay,
    OExec,
    SyncNop,
    QRdnMaxLen,
    SBusType,
    OSpiOp,
    SSpiFreq,
    SPinState,
}

/// The wire byte of each opcode.
pub open spec fn opcode_byte(op: OpCode) -> u8 {
    match op {
        OpCode::Nop => 0x00,
        OpCode::QIface => 0x01,
        OpCode::QCmdMap => 0x02,
        OpCode::QPgmName => 0x03,
        OpCode::QSerBuf => 0x04,
        OpCode::QBusType => 0x05,
        OpCode::QChipSize => 0x06,
        OpCode::QOpBuf => 0x07,
        OpCode::QWrnMaxLen => 0x08,
        OpCode::RByte => 0x09,
        OpCode::RNBytes => 0x0a,
        OpCode::OInit => 0x0b,
        OpCode::OWriteB => 0x0c,
        OpCode::OWriteN => 0x0d,
        OpCode::ODelay => 0x0e,
        OpCode::OExec => 0x0f,
        OpCode::SyncNop => 0x10,
        OpCode::QRdnMaxLen => 0x11,
        OpCode::SBusType => 0x12,
        OpCode::OSpiOp => 0x13,
        OpCode::SSpiFreq => 0x14,
        OpCode::SPinState => 0x15,
    }
}

/// The opcode a wire byte stands for, if any: bytes above 0x15 name none.
pub open spec fn opcode_from_byte(n: u8) -> Option<OpCode> {
    if n == 0x00 {
        Some(OpCode::Nop)
    } else if n == 0x01 {
        Some(OpCode::QIface)
    } else if n == 0x02 {
        Some(OpCode::QCmdMap)
    } else if n == 0x03 {
        Some(OpCode::QPgmName)
    } else if n == 0x04 {
        Some(OpCode::QSerBuf)
    } else if n == 0x05 {
        Some(OpCode::QBusType)
    } else if n == 0x06 {
        Some(OpCode::QChipSize)
    } else if n == 0x07 {
        Some(OpCode::QOpBuf)
    } else if n == 0x08 {
        Some(OpCode::QWrnMaxLen)
    } else if n == 0x09 {
        Some(OpCode::RByte)
    } else if n == 0x0a {
        Some(OpCode::RNBytes)
    } else if n == 0x0b {
        Some(OpCode::OInit)
    } else if n == 0x0c {
        Some(OpCode::OWriteB)
    } else if n == 0x0d {
        Some(OpCode::OWriteN)
    } else if n == 0x0e {
        Some(OpCode::ODelay)
    } else if n == 0x0f {
        Some(OpCode::OExec)
    } else if n == 0x10 {
        Some(OpCode::SyncNop)
    } else if n == 0x11 {
        Some(OpCode::QRdnMaxLen)
    } else if n == 0x12 {
        Some(OpCode::SBusType)
    } else if n == 0x13 {
        Some(OpCode::OSpiOp)
    } else if n == 0x14 {
        Some(OpCode::SSpiFreq)
    } else if n == 0x15 {
        Some(OpCode::SPinState)
    } else {
        None
    }
}

impl OpCode {
    /// Maps a wire byte into the opcode set: every byte up to 0x15 names
    /// exactly one opcode, every byte above it none.
    pub fn from_u8(n: u8) -> (r: Option<OpCode>)
        ensures
            r == opcode_from_byte(n),
            match r {
                Some(op) => n <= 0x15 && opcode_byte(op) == n,
                None => n > 0x15,
            },
    {
        match n {
            0x00 => Some(OpCode::Nop),
            0x01 => Some(OpCode::QIface),
            0x02 => Some(OpCode::QCmdMap),
            0x03 => Some(OpCode::QPgmName),
            0x04 => Some(OpCode::QSerBuf),
            0x05 => Some(OpCode::QBusType),
            0x06 => Some(OpCode::QChipSize),
            0x07 => Some(OpCode::QOpBuf),
            0x08 => Some(OpCode::QWrnMaxLen),
            0x09 => Some(OpCode::RByte),
            0x0a => Some(OpCode::RNBytes),
            0x0b => Some(OpCode::OInit),
            0x0c => Some(OpCode::OWriteB),
            0x0d => Some(OpCode::OWriteN),
            0x0e => Some(OpCode::ODelay),
            0x0f => Some(OpCode::OExec),
            0x10 => Some(OpCode::SyncNop),
            0x11 => Some(OpCode::QRdnMaxLen),
            0x12 => Some(OpCode::SBusType),
            0x13 => Some(OpCode::OSpiOp),
            0x14 => Some(OpCode::SSpiFreq),
            0x15 => Some(OpCode::SPinState),
            _ => None,
        }
    }
}

} // verus!
