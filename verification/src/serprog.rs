//! The command dispatcher: the engine that turns staged transport bytes
//! into decoded commands and decoded commands into replies.
//!
//! The engine owns the SPI link and decides everything the protocol
//! requires; the two things only the embedding can do — moving bytes over
//! the transport and performing the electrical SPI exchange — are handed to
//! it as plain values: the transport fills the staging buffer before a
//! decode attempt, and the captured exchange bytes accompany the command
//! that needs them.

use vstd::prelude::*;
use crate::buffer::Buffer;
use crate::command::{lemma_parse_used_in_range, parse_spec, Command, ParseResult, ParseV};
use crate::constants::{
    cmd_map_bytes,
    cmd_map_seq,
    pgm_name_bytes,
    pgm_name_seq,
    BusType,
    I_FACE_VERSION,
    MAX_BUFFER_SIZE,
    OP_BUF_SIZE,
    SER_BUF_SIZE,
    SUPPORTED_BUS,
};
use crate::opcode::OpCode;
use crate::response_packet::{ResponsePacket, ResponseType};
use crate::spi::{exchange_data, exchange_ok, CsLevel, SpiManager, SpiState};

verus! {

/// Protocol-level failures surfaced by the engine.
#[derive(Clone, Copy, Debug, PartialEq, Eq, Structural)]
pub enum SerProgError {
    /// The response could not be written to the transport.
    WriteFail,
    /// The transport could not be read, or decoding failed terminally.
    ReadFail,
    /// The opcode is recognized but has no handler in this profile.
    NotImplemented { opcode: OpCode },
}

/// The protocol engine: owns the SPI link for the process's lifetime.
pub struct SerProg {
    pub spi: SpiManager,
}

impl SerProg {
    /// Makes an engine around a fresh or given SPI link.
    pub fn new(spi: SpiManager) -> (r: SerProg)
        ensures
            r.spi == spi,
    {
        SerProg { spi }
    }

    /// Attempts to decode one command from the buffer's unread bytes.
    /// An incomplete prefix asks the caller to fill the buffer and retry;
    /// a complete command is consumed from the buffer; a terminal decode
    /// failure discards the whole buffer — the protocol's resynchronization
    /// rule — and surfaces as a read failure.
    pub fn process_command(&self, buffer: &mut Buffer) -> (r: Result<
        Option<Command>,
        SerProgError,
    >)
        requires
            old(buffer).wf(),
        ensures
            final(buffer).wf(),
            final(buffer).capacity() == old(buffer).capacity(),
            match parse_spec(old(buffer).contents()) {
                ParseV::Incomplete => r == Ok::<Option<Command>, SerProgError>(Option::None)
                    && final(buffer).contents() == old(buffer).contents(),
                ParseV::Invalid => r == Err::<Option<Command>, SerProgError>(SerProgError::ReadFail)
                    && final(buffer).contents().len() == 0,
                ParseV::Complete { cmd, used } => (match r {
                    Ok(oc) => oc matches Some(c) && c@ == cmd,
                    Err(_) => false,
                }) && final(buffer).contents() == old(buffer).contents().skip(used),
            },
    {
        let n = buffer.available_read();
        let data = buffer.read(n);
        proof {
            assert(data@ =~= buffer.contents());
        }
        match Command::parse(&data) {
            ParseResult::Incomplete => Ok(Option::None),
            ParseResult::Invalid => {
                buffer.clear();
                Err(SerProgError::ReadFail)
            },
            ParseResult::Complete { cmd, used } => {
                proof {
                    lemma_parse_used_in_range(data@);
                }
                buffer.consume(used);
                Ok(Option::Some(cmd))
            },
        }
    }

    /// Answers the protocol version query.
    fn handle_q_iface(&self) -> (r: Result<ResponsePacket, SerProgError>)
        ensures
            r == Ok::<ResponsePacket, SerProgError>(ResponsePacket::QIface {
                iface_version: I_FACE_VERSION,
            }),
    {
        Ok(ResponsePacket::QIface { iface_version: I_FACE_VERSION })
    }

    /// Answers the opcode support bitmap query.
    fn handle_q_cmd_map(&self) -> (r: Result<ResponsePacket, SerProgError>)
        ensures
            match r {
                Ok(p) => p matches ResponsePacket::QCmdMap { cmd_map } && cmd_map@
                    == cmd_map_seq(),
                Err(_) => false,
            },
    {
        Ok(ResponsePacket::QCmdMap { cmd_map: cmd_map_bytes() })
    }

    /// Answers the programmer name query.
    fn handle_q_pgm_name(&self) -> (r: Result<ResponsePacket, SerProgError>)
        ensures
            match r {
                Ok(p) => p matches ResponsePacket::QPgmName { pgm_name } && pgm_name@
                    == pgm_name_seq(),
                Err(_) => false,
            },
    {
        Ok(ResponsePacket::QPgmName { pgm_name: pgm_name_bytes() })
    }

    /// Answers the serial buffer size query.
    fn handle_q_serbuf(&self) -> (r: Result<ResponsePacket, SerProgError>)
        ensures
            r == Ok::<ResponsePacket, SerProgError>(ResponsePacket::QSerBuf {
                size: SER_BUF_SIZE as u16,
            }),
    {
        Ok(ResponsePacket::QSerBuf { size: SER_BUF_SIZE as u16 })
    }

    /// Answers the supported bus query.
    fn handle_q_bus_type(&self) -> (r: Result<ResponsePacket, SerProgError>)
        ensures
            r == Ok::<ResponsePacket, SerProgError>(ResponsePacket::QBusType {
                bus_type: BusType(SUPPORTED_BUS),
            }),
    {
        Ok(ResponsePacket::QBusType { bus_type: BusType(SUPPORTED_BUS) })
    }

    /// Answers the operation buffer size query.
    fn handle_q_op_buf(&self) -> (r: Result<ResponsePacket, SerProgError>)
        ensures
            r == Ok::<ResponsePacket, SerProgError>(ResponsePacket::QOpBuf {
                size: OP_BUF_SIZE as u16,
            }),
    {
        Ok(ResponsePacket::QOpBuf { size: OP_BUF_SIZE as u16 })
    }

    /// Answers the maximum write-length query.
    fn handle_q_wrn_max_len(&self) -> (r: Result<ResponsePacket, SerProgError>)
        ensures
            r == Ok::<ResponsePacket, SerProgError>(ResponsePacket::QWrnMaxLen {
                size: SER_BUF_SIZE as u32,
            }),
    {
        Ok(ResponsePacket::QWrnMaxLen { size: SER_BUF_SIZE as u32 })
    }

    /// Answers the synchronization probe with its fixed two-byte reply.
    fn handle_sync_nop(&self) -> (r: Result<ResponsePacket, SerProgError>)
        ensures
            r == Ok::<ResponsePacket, SerProgError>(ResponsePacket::SyncNop),
    {
        Ok(ResponsePacket::SyncNop)
    }

    /// Validates a bus selection against the supported mask; no state
    /// changes either way.
    fn handle_s_bus_type(&self, bustype: BusType) -> (r: Result<ResponsePacket, SerProgError>)
        ensures
            r == Ok::<ResponsePacket, SerProgError>(ResponsePacket::SBusType {
                res: if bustype.0 == SUPPORTED_BUS {
                    ResponseType::Ack
                } else {
                    ResponseType::Nak
                },
            }),
    {
        let res = if bustype.0 == SUPPORTED_BUS {
            ResponseType::Ack
        } else {
            ResponseType::Nak
        };
        Ok(ResponsePacket::SBusType { res })
    }

    /// Runs one full-duplex SPI transfer: lengths beyond the negotiated
    /// maximum are refused with an empty Nak before the link is touched,
    /// and a transfer failure — the link disabled, or a bad exchange —
    /// becomes an empty Nak rather than a fatal error.
    fn handle_o_spi_op(&mut self, rlen: u32, data: Vec<u8>, exchange: Option<Vec<u8>>) -> (r:
        Result<ResponsePacket, SerProgError>)
        ensures
            final(self).spi.state == old(self).spi.state,
            final(self).spi.last_freq == old(self).spi.last_freq,
            data@.len() > MAX_BUFFER_SIZE || rlen > MAX_BUFFER_SIZE ==> final(self).spi.cs_levels
                == old(self).spi.cs_levels && spi_op_nak(r),
            data@.len() <= MAX_BUFFER_SIZE && rlen <= MAX_BUFFER_SIZE ==> {
                &&& old(self).spi.state is Disabled ==> final(self).spi.cs_levels == old(self).spi.cs_levels && spi_op_nak(r)
                &&& old(self).spi.state is Enabled ==> {
                    &&& final(self).spi.cs_levels@ == old(self).spi.cs_levels@ + seq![
                        CsLevel::Low,
                        CsLevel::High,
                    ]
                    &&& exchange_ok(exchange, rlen as int) ==> spi_op_ack(
                        r,
                        exchange_data(exchange),
                    )
                    &&& !exchange_ok(exchange, rlen as int) ==> spi_op_nak(r)
                }
            },
    {
        if data.len() > MAX_BUFFER_SIZE || rlen > MAX_BUFFER_SIZE as u32 {
            return Ok(
                ResponsePacket::SpiOp { res: ResponseType::Nak, rlen: 0, data: Vec::new() },
            );
        }
        let rl = rlen as usize;
        match self.spi.transfer_with_cs(&data, rl, exchange) {
            Ok(rx) => {
                let n = rx.len();
                Ok(ResponsePacket::SpiOp { res: ResponseType::Ack, rlen: n, data: rx })
            },
            Err(_) => Ok(
                ResponsePacket::SpiOp { res: ResponseType::Nak, rlen: 0, data: Vec::new() },
            ),
        }
    }

    /// Applies a new SPI clock frequency. Zero is the well-defined
    /// "disable/no-op" request: it is answered with a Nak and the link is
    /// not touched. Any other value reconfigures the link so the new
    /// frequency takes effect even when one was already active.
    fn handle_s_spi_freq(&mut self, freq: u32) -> (r: Result<ResponsePacket, SerProgError>)
        ensures
            final(self).spi.cs_levels == old(self).spi.cs_levels,
            freq == 0 ==> *final(self) == *old(self) && r == Ok::<ResponsePacket, SerProgError>(
                ResponsePacket::SSpiFreq { res: ResponseType::Nak, set_freq: 0 },
            ),
            freq != 0 ==> final(self).spi.state == (SpiState::Enabled { freq }) && final(self).spi.last_freq == freq && r == Ok::<ResponsePacket, SerProgError>(
                ResponsePacket::SSpiFreq { res: ResponseType::Ack, set_freq: freq },
            ),
    {
        if freq == 0 {
            Ok(ResponsePacket::SSpiFreq { res: ResponseType::Nak, set_freq: 0 })
        } else {
            self.spi.configure(freq);
            Ok(ResponsePacket::SSpiFreq { res: ResponseType::Ack, set_freq: freq })
        }
    }

    /// Drives or releases the SPI pins. Releasing disables the link;
    /// driving re-enables it at the last applied frequency, which must
    /// exist — before any frequency was negotiated the request is refused.
    fn handle_s_pin_state(&mut self, drive: bool) -> (r: Result<ResponsePacket, SerProgError>)
        ensures
            final(self).spi.cs_levels == old(self).spi.cs_levels,
            final(self).spi.last_freq == old(self).spi.last_freq,
            !drive ==> final(self).spi.state is Disabled && r == Ok::<ResponsePacket, SerProgError>(
                ResponsePacket::SPinState { res: ResponseType::Ack },
            ),
            drive ==> match old(self).spi.state {
                SpiState::Enabled { .. } => *final(self) == *old(self) && r == Ok::<
                    ResponsePacket,
                    SerProgError,
                >(ResponsePacket::SPinState { res: ResponseType::Ack }),
                SpiState::Disabled => if old(self).spi.last_freq == 0 {
                    *final(self) == *old(self) && r == Ok::<ResponsePacket, SerProgError>(
                        ResponsePacket::SPinState { res: ResponseType::Nak },
                    )
                } else {
                    final(self).spi.state == (SpiState::Enabled {
                        freq: old(self).spi.last_freq,
                    }) && r == Ok::<ResponsePacket, SerProgError>(
                        ResponsePacket::SPinState { res: ResponseType::Ack },
                    )
                },
            },
    {
        if !drive {
            self.spi.disable();
            Ok(ResponsePacket::SPinState { res: ResponseType::Ack })
        } else {
            match self.spi.state {
                SpiState::Enabled { .. } => Ok(
                    ResponsePacket::SPinState { res: ResponseType::Ack },
                ),
                SpiState::Disabled => {
                    let last = self.spi.last_freq;
                    if last == 0 {
                        Ok(ResponsePacket::SPinState { res: ResponseType::Nak })
                    } else {
                        self.spi.enable(last);
                        Ok(ResponsePacket::SPinState { res: ResponseType::Ack })
                    }
                },
            }
        }
    }

    /// Routes one decoded command to its handler. `exchange` carries the
    /// bytes the embedding captured while performing the SPI exchange for
    /// a transfer command, and is ignored by every other command; handing
    /// none for a transfer command reads as a failed exchange.
    pub fn handle_command(&mut self, cmd: Command, exchange: Option<Vec<u8>>) -> (r: Result<
        ResponsePacket,
        SerProgError,
    >)
        ensures
            !(cmd matches Command::OSpiOp { .. } || cmd matches Command::SSpiFreq(_)
                || cmd matches Command::SPinState(_)) ==> *final(self) == *old(self),
            match cmd {
                Command::Nop => r == Ok::<ResponsePacket, SerProgError>(ResponsePacket::Nop),
                Command::QIface => r == Ok::<ResponsePacket, SerProgError>(
                    ResponsePacket::QIface { iface_version: I_FACE_VERSION },
                ),
                Command::QCmdMap => match r {
                    Ok(p) => p matches ResponsePacket::QCmdMap { cmd_map } && cmd_map@
                        == cmd_map_seq(),
                    Err(_) => false,
                },
                Command::QPgmName => match r {
                    Ok(p) => p matches ResponsePacket::QPgmName { pgm_name } && pgm_name@
                        == pgm_name_seq(),
                    Err(_) => false,
                },
                Command::QSerBuf => r == Ok::<ResponsePacket, SerProgError>(
                    ResponsePacket::QSerBuf { size: SER_BUF_SIZE as u16 },
                ),
                Command::QBusType => r == Ok::<ResponsePacket, SerProgError>(
                    ResponsePacket::QBusType { bus_type: BusType(SUPPORTED_BUS) },
                ),
                Command::QChipSize => r == Err::<ResponsePacket, SerProgError>(
                    SerProgError::NotImplemented { opcode: OpCode::QChipSize },
                ),
                Command::QOpBuf => r == Ok::<ResponsePacket, SerProgError>(
                    ResponsePacket::QOpBuf { size: OP_BUF_SIZE as u16 },
                ),
                Command::QWrnMaxLen => r == Ok::<ResponsePacket, SerProgError>(
                    ResponsePacket::QWrnMaxLen { size: SER_BUF_SIZE as u32 },
                ),
                Command::RByte(_) => r == Err::<ResponsePacket, SerProgError>(
                    SerProgError::NotImplemented { opcode: OpCode::RByte },
                ),
                Command::RNBytes { .. } => r == Err::<ResponsePacket, SerProgError>(
                    SerProgError::NotImplemented { opcode: OpCode::RNBytes },
                ),
                Command::OInit => r == Err::<ResponsePacket, SerProgError>(
                    SerProgError::NotImplemented { opcode: OpCode::OInit },
                ),
                Command::OWriteB { .. } => r == Err::<ResponsePacket, SerProgError>(
                    SerProgError::NotImplemented { opcode: OpCode::OWriteB },
                ),
                Command::OWriteN { .. } => r == Err::<ResponsePacket, SerProgError>(
                    SerProgError::NotImplemented { opcode: OpCode::OWriteN },
                ),
                Command::ODelay(_) => r == Err::<ResponsePacket, SerProgError>(
                    SerProgError::NotImplemented { opcode: OpCode::ODelay },
                ),
                Command::OExec => r == Err::<ResponsePacket, SerProgError>(
                    SerProgError::NotImplemented { opcode: OpCode::OExec },
                ),
                Command::SyncNop => r == Ok::<ResponsePacket, SerProgError>(
                    ResponsePacket::SyncNop,
                ),
                Command::QRdnMaxLen => r == Err::<ResponsePacket, SerProgError>(
                    SerProgError::NotImplemented { opcode: OpCode::QRdnMaxLen },
                ),
                Command::SBusType(bt) => r == Ok::<ResponsePacket, SerProgError>(
                    ResponsePacket::SBusType {
                        res: if bt.0 == SUPPORTED_BUS {
                            ResponseType::Ack
                        } else {
                            ResponseType::Nak
                        },
                    },
                ),
                Command::OSpiOp { rlen, data } => {
                    &&& final(self).spi.state == old(self).spi.state
                    &&& final(self).spi.last_freq == old(self).spi.last_freq
                    &&& data@.len() > MAX_BUFFER_SIZE || rlen > MAX_BUFFER_SIZE ==> final(self).spi.cs_levels == old(self).spi.cs_levels && spi_op_nak(r)
                    &&& data@.len() <= MAX_BUFFER_SIZE && rlen <= MAX_BUFFER_SIZE ==> {
                        &&& old(self).spi.state is Disabled ==> final(self).spi.cs_levels == old(self).spi.cs_levels && spi_op_nak(r)
                        &&& old(self).spi.state is Enabled ==> {
                            &&& final(self).spi.cs_levels@ == old(self).spi.cs_levels@ + seq![
                                CsLevel::Low,
                                CsLevel::High,
                            ]
                            &&& exchange_ok(exchange, rlen as int) ==> spi_op_ack(
                                r,
                                exchange_data(exchange),
                            )
                            &&& !exchange_ok(exchange, rlen as int) ==> spi_op_nak(r)
                        }
                    }
                },
                Command::SSpiFreq(freq) => {
                    &&& final(self).spi.cs_levels == old(self).spi.cs_levels
                    &&& freq == 0 ==> *final(self) == *old(self) && r == Ok::<
                        ResponsePacket,
                        SerProgError,
                    >(ResponsePacket::SSpiFreq { res: ResponseType::Nak, set_freq: 0 })
                    &&& freq != 0 ==> final(self).spi.state == (SpiState::Enabled { freq })
                        && final(self).spi.last_freq == freq && r == Ok::<
                        ResponsePacket,
                        SerProgError,
                    >(ResponsePacket::SSpiFreq { res: ResponseType::Ack, set_freq: freq })
                },
                Command::SPinState(drive) => {
                    &&& final(self).spi.cs_levels == old(self).spi.cs_levels
                    &&& final(self).spi.last_freq == old(self).spi.last_freq
                    &&& !drive ==> final(self).spi.state is Disabled && r == Ok::<
                        ResponsePacket,
                        SerProgError,
                    >(ResponsePacket::SPinState { res: ResponseType::Ack })
                    &&& drive ==> match old(self).spi.state {
                        SpiState::Enabled { .. } => *final(self) == *old(self) && r == Ok::<
                            ResponsePacket,
                            SerProgError,
                        >(ResponsePacket::SPinState { res: ResponseType::Ack }),
                        SpiState::Disabled => if old(self).spi.last_freq == 0 {
                            *final(self) == *old(self) && r == Ok::<ResponsePacket, SerProgError>(
                                ResponsePacket::SPinState { res: ResponseType::Nak },
                            )
                        } else {
                            final(self).spi.state == (SpiState::Enabled {
                                freq: old(self).spi.last_freq,
                            }) && r == Ok::<ResponsePacket, SerProgError>(
                                ResponsePacket::SPinState { res: ResponseType::Ack },
                            )
                        },
                    }
                },
            },
    {
        match cmd {
            Command::Nop => Ok(ResponsePacket::Nop),
            Command::QIface => self.handle_q_iface(),
            Command::QCmdMap => self.handle_q_cmd_map(),
            Command::QPgmName => self.handle_q_pgm_name(),
            Command::QSerBuf => self.handle_q_serbuf(),
            Command::QBusType => self.handle_q_bus_type(),
            Command::QChipSize => Err(SerProgError::NotImplemented { opcode: OpCode::QChipSize }),
            Command::QOpBuf => self.handle_q_op_buf(),
            Command::QWrnMaxLen => self.handle_q_wrn_max_len(),
            Command::RByte(_) => Err(SerProgError::NotImplemented { opcode: OpCode::RByte }),
            Command::RNBytes { .. } => Err(
                SerProgError::NotImplemented { opcode: OpCode::RNBytes },
            ),
            Command::OInit => Err(SerProgError::NotImplemented { opcode: OpCode::OInit }),
            Command::OWriteB { .. } => Err(
                SerProgError::NotImplemented { opcode: OpCode::OWriteB },
            ),
            Command::OWriteN { .. } => Err(
                SerProgError::NotImplemented { opcode: OpCode::OWriteN },
            ),
            Command::ODelay(_) => Err(SerProgError::NotImplemented { opcode: OpCode::ODelay }),
            Command::OExec => Err(SerProgError::NotImplemented { opcode: OpCode::OExec }),
            Command::SyncNop => self.handle_sync_nop(),
            Command::QRdnMaxLen => Err(
                SerProgError::NotImplemented { opcode: OpCode::QRdnMaxLen },
            ),
            Command::SBusType(bt) => self.handle_s_bus_type(bt),
            Command::OSpiOp { rlen, data } => self.handle_o_spi_op(rlen, data, exchange),
            Command::SSpiFreq(freq) => self.handle_s_spi_freq(freq),
            Command::SPinState(drive) => self.handle_s_pin_state(drive),
        }
    }
}

/// The reply is an empty-payload SPI Nak.
pub open spec fn spi_op_nak(r: Result<ResponsePacket, SerProgError>) -> bool {
    match r {
        Ok(p) => p matches ResponsePacket::SpiOp { res, rlen, data } && res is Nak && rlen == 0
            && data@.len() == 0,
        Err(_) => false,
    }
}

/// The reply is an SPI Ack carrying exactly the captured bytes.
pub open spec fn spi_op_ack(r: Result<ResponsePacket, SerProgError>, captured: Seq<u8>) -> bool {
    match r {
        Ok(p) => p matches ResponsePacket::SpiOp { res, rlen, data } && res is Ack && rlen
            == captured.len() && data@ == captured,
        Err(_) => false,
    }
}

} // verus!
