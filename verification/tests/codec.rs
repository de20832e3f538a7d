use serprog::address::Address;
use serprog::command::{Command, ParseResult};
use serprog::constants::BusType;
use serprog::error::DataError;
use serprog::opcode::OpCode;
use serprog::response_packet::{ResponsePacket, ResponseType};

fn round_trip(cmd: Command) {
    let wire = cmd.encode();
    match Command::parse(&wire) {
        ParseResult::Complete { cmd: decoded, used } => {
            assert_eq!(decoded, cmd);
            assert_eq!(used, wire.len());
        }
        other => panic!("expected a complete decode, got {:?}", other),
    }
    // Every strict prefix must read as incomplete, never as a failure.
    for n in 0..wire.len() {
        let prefix = wire[0..n].to_vec();
        assert_eq!(Command::parse(&prefix), ParseResult::Incomplete);
    }
}

#[test]
fn round_trip_no_payload_commands() {
    round_trip(Command::Nop);
    round_trip(Command::QIface);
    round_trip(Command::QCmdMap);
    round_trip(Command::QPgmName);
    round_trip(Command::QSerBuf);
    round_trip(Command::QBusType);
    round_trip(Command::QChipSize);
    round_trip(Command::QOpBuf);
    round_trip(Command::QWrnMaxLen);
    round_trip(Command::OInit);
    round_trip(Command::OExec);
    round_trip(Command::SyncNop);
    round_trip(Command::QRdnMaxLen);
}

#[test]
fn round_trip_fixed_payload_commands() {
    round_trip(Command::RByte(Address(0x123456)));
    round_trip(Command::RNBytes { addr: Address(0xabcdef), n: 0x000102 });
    round_trip(Command::OWriteB { addr: Address(0x000001), data: 0x5a });
    round_trip(Command::ODelay(0xdeadbeef));
    round_trip(Command::SBusType(BusType(0x08)));
    round_trip(Command::SSpiFreq(1_000_000));
    round_trip(Command::SPinState(true));
    round_trip(Command::SPinState(false));
}

#[test]
fn round_trip_bulk_commands() {
    round_trip(Command::OWriteN { addr: Address(0x010203), data: vec![0xde, 0xad, 0xbe, 0xef] });
    round_trip(Command::OWriteN { addr: Address(0), data: vec![] });
    round_trip(Command::OSpiOp { rlen: 2, data: vec![0xaa, 0xbb] });
    round_trip(Command::OSpiOp { rlen: 0, data: vec![] });
}

#[test]
fn spi_op_wire_layout() {
    let wire = Command::OSpiOp { rlen: 2, data: vec![0xaa, 0xbb] }.encode();
    assert_eq!(wire, vec![0x13, 0x02, 0x00, 0x00, 0x02, 0x00, 0x00, 0xaa, 0xbb]);
}

#[test]
fn parse_rejects_unknown_opcodes() {
    assert_eq!(Command::parse(&vec![0x16]), ParseResult::Invalid);
    assert_eq!(Command::parse(&vec![0xff, 0x00, 0x01]), ParseResult::Invalid);
}

#[test]
fn parse_empty_is_incomplete() {
    assert_eq!(Command::parse(&vec![]), ParseResult::Incomplete);
}

#[test]
fn opcode_byte_mapping() {
    assert_eq!(OpCode::from_u8(0x00), Some(OpCode::Nop));
    assert_eq!(OpCode::from_u8(0x10), Some(OpCode::SyncNop));
    assert_eq!(OpCode::from_u8(0x13), Some(OpCode::OSpiOp));
    assert_eq!(OpCode::from_u8(0x15), Some(OpCode::SPinState));
    assert_eq!(OpCode::from_u8(0x16), None);
    assert_eq!(OpCode::from_u8(0xff), None);
}

fn assert_encodes(p: ResponsePacket, expected: &[u8]) {
    // The advertised size is exactly what encoding produces.
    assert_eq!(p.packet_size(), expected.len());
    assert_eq!(p.encode().as_slice(), expected);

    // Into a caller buffer: the encoding lands at the front, the rest stays.
    let mut buf = vec![0xeeu8; expected.len() + 2];
    assert_eq!(p.to_bytes(&mut buf), Ok(expected.len()));
    assert_eq!(&buf[0..expected.len()], expected);
    assert_eq!(&buf[expected.len()..], &[0xee, 0xee]);

    // A destination one byte short always reports the sizing error.
    if expected.len() > 0 {
        let mut short = vec![0u8; expected.len() - 1];
        assert_eq!(
            p.to_bytes(&mut short),
            Err(DataError::BufferTooSmall {
                buf_size: expected.len() - 1,
                required: expected.len(),
            })
        );
    }
}

#[test]
fn response_sizes_and_bytes() {
    assert_encodes(ResponsePacket::Nop, &[0x06]);
    assert_encodes(ResponsePacket::QIface { iface_version: 1 }, &[0x06, 0x01, 0x00]);
    assert_encodes(ResponsePacket::QSerBuf { size: 1024 }, &[0x06, 0x00, 0x04]);
    assert_encodes(ResponsePacket::QOpBuf { size: 1024 }, &[0x06, 0x00, 0x04]);
    assert_encodes(ResponsePacket::QBusType { bus_type: BusType(0x08) }, &[0x06, 0x08]);
    assert_encodes(ResponsePacket::QWrnMaxLen { size: 1024 }, &[0x06, 0x00, 0x04, 0x00]);
    assert_encodes(ResponsePacket::SyncNop, &[0x06, 0x15]);
    assert_encodes(ResponsePacket::SBusType { res: ResponseType::Ack }, &[0x06]);
    assert_encodes(ResponsePacket::SBusType { res: ResponseType::Nak }, &[0x15]);
    assert_encodes(ResponsePacket::SPinState { res: ResponseType::Ack }, &[0x06]);
    assert_encodes(
        ResponsePacket::SpiOp { res: ResponseType::Ack, rlen: 2, data: vec![0x11, 0x22] },
        &[0x06, 0x11, 0x22],
    );
    assert_encodes(
        ResponsePacket::SpiOp { res: ResponseType::Nak, rlen: 0, data: vec![] },
        &[0x15],
    );
    assert_encodes(
        ResponsePacket::SSpiFreq { res: ResponseType::Ack, set_freq: 1_000_000 },
        &[0x06, 0x40, 0x42, 0x0f, 0x00],
    );
    assert_encodes(
        ResponsePacket::SSpiFreq { res: ResponseType::Nak, set_freq: 0 },
        &[0x15],
    );
}

#[test]
fn response_map_and_name_fields() {
    let map = serprog::constants::cmd_map_bytes();
    assert_eq!(map.len(), 32);
    // Handled opcodes: 0x00-0x05, 0x07, 0x08, 0x10, 0x12-0x15.
    assert_eq!(&map[0..4], &[0xbf, 0x01, 0x3d, 0x00]);
    assert!(map[4..].iter().all(|b| *b == 0));
    let packet = ResponsePacket::QCmdMap { cmd_map: map };
    assert_eq!(packet.packet_size(), 33);
    assert_eq!(packet.encode()[0], 0x06);

    let name = serprog::constants::pgm_name_bytes();
    assert_eq!(name.as_slice(), b"stm32-vserprog\0\0");
    let packet = ResponsePacket::QPgmName { pgm_name: name };
    assert_eq!(packet.packet_size(), 17);
    assert_eq!(&packet.encode()[1..15], b"stm32-vserprog");
}
