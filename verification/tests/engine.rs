use serprog::buffer::Buffer;
use serprog::command::Command;
use serprog::constants::BusType;
use serprog::opcode::OpCode;
use serprog::response_packet::{ResponsePacket, ResponseType};
use serprog::serprog::{SerProg, SerProgError};
use serprog::spi::{mosi_frame, SpiError, SpiManager, SpiState};

fn engine() -> SerProg {
    SerProg::new(SpiManager::new())
}

fn reply_bytes(sp: &mut SerProg, input: &[u8], exchange: Option<Vec<u8>>) -> Vec<u8> {
    let mut buf = Buffer::new(1024);
    assert_eq!(buf.write(input), input.len());
    let cmd = sp
        .process_command(&mut buf)
        .expect("decode must succeed")
        .expect("input holds a whole command");
    let response = sp.handle_command(cmd, exchange).expect("command must be handled");
    response.encode()
}

#[test]
fn scenario_version_query() {
    // Interface query: Ack, then protocol version 1 little-endian.
    let mut sp = engine();
    assert_eq!(reply_bytes(&mut sp, &[0x01], None), vec![0x06, 0x01, 0x00]);
}

#[test]
fn scenario_sync_probe() {
    // Synchronization probe: the fixed Ack-then-Nak pair.
    let mut sp = engine();
    assert_eq!(reply_bytes(&mut sp, &[0x10], None), vec![0x06, 0x15]);
}

#[test]
fn scenario_spi_transfer_while_disabled() {
    // A transfer while the link is disabled: Nak with a zero-length payload.
    let mut sp = engine();
    let mut buf = Buffer::new(1024);
    buf.write(&[0x13, 0x02, 0x00, 0x00, 0x02, 0x00, 0x00, 0xaa, 0xbb]);
    let cmd = sp.process_command(&mut buf).unwrap().unwrap();
    assert_eq!(
        cmd,
        Command::OSpiOp { rlen: 2, data: vec![0xaa, 0xbb] }
    );
    let response = sp.handle_command(cmd, Some(vec![0x55, 0x66])).unwrap();
    assert_eq!(
        response,
        ResponsePacket::SpiOp { res: ResponseType::Nak, rlen: 0, data: vec![] }
    );
    assert!(matches!(sp.spi.state, SpiState::Disabled));
}

#[test]
fn scenario_spi_frequency() {
    let mut sp = engine();

    // Frequency zero is the well-defined no-op request: Nak, link untouched.
    let response = sp.handle_command(Command::SSpiFreq(0), None).unwrap();
    assert_eq!(
        response,
        ResponsePacket::SSpiFreq { res: ResponseType::Nak, set_freq: 0 }
    );
    assert!(matches!(sp.spi.state, SpiState::Disabled));

    // One megahertz: Ack, and the link comes up at that frequency.
    let response = sp.handle_command(Command::SSpiFreq(1_000_000), None).unwrap();
    assert_eq!(
        response,
        ResponsePacket::SSpiFreq { res: ResponseType::Ack, set_freq: 1_000_000 }
    );
    assert!(matches!(sp.spi.state, SpiState::Enabled { freq: 1_000_000 }));
}

#[test]
fn spi_transfer_while_enabled() {
    let mut sp = engine();
    sp.handle_command(Command::SSpiFreq(2_000_000), None).unwrap();
    let cmd = Command::OSpiOp { rlen: 3, data: vec![0x9f] };
    let captured = vec![0x20, 0xba, 0x18];
    let response = sp.handle_command(cmd, Some(captured.clone())).unwrap();
    assert_eq!(
        response,
        ResponsePacket::SpiOp { res: ResponseType::Ack, rlen: 3, data: captured }
    );
}

#[test]
fn spi_transfer_bad_exchange_naks() {
    let mut sp = engine();
    sp.handle_command(Command::SSpiFreq(2_000_000), None).unwrap();
    // No capture at all, and a capture of the wrong length, both read as a
    // failed transfer and keep the session alive with a Nak.
    let response = sp
        .handle_command(Command::OSpiOp { rlen: 2, data: vec![0x05] }, None)
        .unwrap();
    assert_eq!(response, ResponsePacket::SpiOp { res: ResponseType::Nak, rlen: 0, data: vec![] });
    let response = sp
        .handle_command(Command::OSpiOp { rlen: 2, data: vec![0x05] }, Some(vec![0x01]))
        .unwrap();
    assert_eq!(response, ResponsePacket::SpiOp { res: ResponseType::Nak, rlen: 0, data: vec![] });
}

#[test]
fn spi_transfer_oversized_is_refused() {
    let mut sp = engine();
    sp.handle_command(Command::SSpiFreq(2_000_000), None).unwrap();
    let oversized = Command::OSpiOp { rlen: 129, data: vec![] };
    let response = sp.handle_command(oversized, Some(vec![0u8; 129])).unwrap();
    assert_eq!(response, ResponsePacket::SpiOp { res: ResponseType::Nak, rlen: 0, data: vec![] });
}

#[test]
fn transfer_with_cs_requires_enabled_link() {
    let mut spi = SpiManager::new();
    assert_eq!(
        spi.transfer_with_cs(&vec![0x01], 1, Some(vec![0x02])),
        Err(SpiError::NotEnabled)
    );
    spi.enable(500_000);
    assert_eq!(spi.transfer_with_cs(&vec![0x01], 1, Some(vec![0x02])), Ok(vec![0x02]));
    assert_eq!(
        spi.transfer_with_cs(&vec![0x01], 1, None),
        Err(SpiError::TransferFailed)
    );
}

#[test]
fn spi_link_transitions() {
    let mut spi = SpiManager::new();
    assert!(matches!(spi.state, SpiState::Disabled));
    spi.enable(8_000_000);
    assert!(matches!(spi.state, SpiState::Enabled { freq: 8_000_000 }));
    // Enabling again does not change the frequency; configure does.
    spi.enable(1);
    assert!(matches!(spi.state, SpiState::Enabled { freq: 8_000_000 }));
    spi.configure(4_000_000);
    assert!(matches!(spi.state, SpiState::Enabled { freq: 4_000_000 }));
    spi.disable();
    assert!(matches!(spi.state, SpiState::Disabled));
    assert_eq!(spi.last_freq, 4_000_000);
}

#[test]
fn pin_state_drives_and_releases() {
    let mut sp = engine();

    // Driving the pins before any frequency was negotiated is refused.
    let response = sp.handle_command(Command::SPinState(true), None).unwrap();
    assert_eq!(response, ResponsePacket::SPinState { res: ResponseType::Nak });
    assert!(matches!(sp.spi.state, SpiState::Disabled));

    // Negotiate a frequency, release the pins, then drive them again: the
    // link comes back at the remembered frequency.
    sp.handle_command(Command::SSpiFreq(3_000_000), None).unwrap();
    let response = sp.handle_command(Command::SPinState(false), None).unwrap();
    assert_eq!(response, ResponsePacket::SPinState { res: ResponseType::Ack });
    assert!(matches!(sp.spi.state, SpiState::Disabled));
    let response = sp.handle_command(Command::SPinState(true), None).unwrap();
    assert_eq!(response, ResponsePacket::SPinState { res: ResponseType::Ack });
    assert!(matches!(sp.spi.state, SpiState::Enabled { freq: 3_000_000 }));
}

#[test]
fn bus_select_validates_mask() {
    let mut sp = engine();
    let response = sp.handle_command(Command::SBusType(BusType(0x08)), None).unwrap();
    assert_eq!(response, ResponsePacket::SBusType { res: ResponseType::Ack });
    let response = sp.handle_command(Command::SBusType(BusType(0x01)), None).unwrap();
    assert_eq!(response, ResponsePacket::SBusType { res: ResponseType::Nak });
}

#[test]
fn unimplemented_opcodes_are_reported() {
    let mut sp = engine();
    assert_eq!(
        sp.handle_command(Command::QChipSize, None),
        Err(SerProgError::NotImplemented { opcode: OpCode::QChipSize })
    );
    assert_eq!(
        sp.handle_command(Command::RByte(serprog::address::Address(0x10)), None),
        Err(SerProgError::NotImplemented { opcode: OpCode::RByte })
    );
    assert_eq!(
        sp.handle_command(Command::OWriteN { addr: serprog::address::Address(0), data: vec![1] }, None),
        Err(SerProgError::NotImplemented { opcode: OpCode::OWriteN })
    );
}

#[test]
fn decode_failure_clears_the_buffer() {
    let sp = engine();
    let mut buf = Buffer::new(16);
    buf.write(&[0xff, 0x01, 0x02]);
    assert_eq!(sp.process_command(&mut buf), Err(SerProgError::ReadFail));
    assert_eq!(buf.available_read(), 0);
}

#[test]
fn incomplete_input_waits_for_more() {
    let sp = engine();
    let mut buf = Buffer::new(16);
    buf.write(&[0x13, 0x02]);
    assert_eq!(sp.process_command(&mut buf), Ok(None));
    // Nothing was consumed: the bytes wait for the rest of the command.
    assert_eq!(buf.available_read(), 2);
}

#[test]
fn consecutive_commands_consume_exactly() {
    let mut sp = engine();
    let mut buf = Buffer::new(16);
    buf.write(&[0x10, 0x01]);
    let first = sp.process_command(&mut buf).unwrap().unwrap();
    assert_eq!(first, Command::SyncNop);
    assert_eq!(buf.available_read(), 1);
    let second = sp.process_command(&mut buf).unwrap().unwrap();
    assert_eq!(second, Command::QIface);
    assert_eq!(buf.available_read(), 0);
}

#[test]
fn mosi_frame_appends_filler() {
    assert_eq!(mosi_frame(&vec![0x01, 0x02], 3), vec![0x01, 0x02, 0xff, 0xff, 0xff]);
    assert_eq!(mosi_frame(&vec![], 0), Vec::<u8>::new());
}
