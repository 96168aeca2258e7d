use ini_proc::protocol::{
    common_respond, crc8, parse_package_head, protocol_package_send, protocol_parse, quick_reply, CmdPackage,
    ComPackage, Direction, McuComMsgType, McuComPackage, ParseErrorType, ParseResult,
};

fn cmd(cmd_type: u16, payload: &[u8]) -> CmdPackage {
    let mut data = vec![0u8; 256];
    data[..payload.len()].copy_from_slice(payload);
    CmdPackage { cmd_type, cmd_data_len: payload.len() as u16, data }
}

/// A heartbeat packet with the given head fields and a correct CRC.
fn heartbeat_bytes(msg_type: u16, body: &[u8]) -> Vec<u8> {
    let mut b = vec![0xAA, 0x55];
    b.extend_from_slice(&(body.len() as u16).to_le_bytes());
    b.push(0);
    b.push(1);
    b.extend_from_slice(&7u16.to_le_bytes());
    b.extend_from_slice(&0u16.to_le_bytes());
    b.extend_from_slice(&msg_type.to_le_bytes());
    b.extend_from_slice(body);
    b[4] = crc8(&b[5..]);
    b
}

#[test]
fn crc8_check_value() {
    assert_eq!(crc8(b"123456789"), 0xA1);
    assert_eq!(crc8(&[]), 0);
    assert_eq!(crc8(&[0x01]), 0x5E);
}

#[test]
fn message_type_codes() {
    assert_eq!(McuComMsgType::Cmd.code(), 13);
    assert_eq!(McuComMsgType::CmdResp.code(), 14);
    assert_eq!(McuComMsgType::from_code(1), Some(McuComMsgType::HeartBeat));
    assert_eq!(McuComMsgType::from_code(15), None);
    assert_eq!(Direction::MiddleLeft.code(), 4);
    assert_eq!(Direction::CoordinateAll.code(), 11);
    assert_eq!(Direction::from_code(10), Some(Direction::EXTRA));
    assert_eq!(Direction::from_code(12), None);
}

#[test]
fn built_command_parses_back() {
    let c = cmd(0x0102, b"hello");
    let bytes = protocol_package_send(&c, McuComMsgType::Cmd, 9, 42);
    assert_eq!(bytes.len(), 272);
    assert_eq!(&bytes[0..4], &[0xAA, 0x55, 9, 0]);
    assert_eq!(bytes[4], crc8(&bytes[5..21]));
    match parse_package_head(&bytes) {
        ParseResult::Success(p) => {
            assert_eq!(p.head.sn, 42);
            assert_eq!(p.head.msg_type, 13);
            let got = p.as_cmd().expect("command");
            assert_eq!(got.cmd_type, 0x0102);
            assert_eq!(got.cmd_data_len, 5);
            assert_eq!(&got.data[..5], b"hello");
            assert!(p.as_heartbeat().is_none());
        }
        other => panic!("unexpected {:?}", other),
    }
}

#[test]
fn short_input_needs_more() {
    let c = cmd(1, b"abc");
    let bytes = protocol_package_send(&c, McuComMsgType::Cmd, 7, 1);
    assert!(matches!(parse_package_head(&bytes[..11]), ParseResult::NeedMore));
    assert!(matches!(parse_package_head(&bytes[..18]), ParseResult::NeedMore));
    assert!(matches!(parse_package_head(&bytes[..19]), ParseResult::Success(_)));
}

#[test]
fn corrupted_packets_are_refused() {
    let c = cmd(1, b"abc");
    let mut bytes = protocol_package_send(&c, McuComMsgType::Cmd, 7, 1);
    bytes[13] ^= 0xFF;
    assert!(matches!(parse_package_head(&bytes), ParseResult::Error(ParseErrorType::CrcVerifyError)));

    let wrong_len = protocol_package_send(&c, McuComMsgType::Cmd, 8, 1);
    assert!(matches!(parse_package_head(&wrong_len), ParseResult::Error(ParseErrorType::CmdDataLenError)));

    let other_type = protocol_package_send(&c, McuComMsgType::GpsData, 7, 1);
    assert!(matches!(parse_package_head(&other_type), ParseResult::Error(ParseErrorType::HeadTypeConvError)));

    let mut too_long = vec![0xAA, 0x55, 0x05, 0x01, 0, 1, 0, 0, 0, 0, 13, 0];
    too_long.resize(12 + 261, 0);
    assert!(matches!(parse_package_head(&too_long), ParseResult::Error(ParseErrorType::CmdDataLenError)));
}

#[test]
fn heartbeat_fields_are_decoded() {
    let mut body = vec![0u8; 36];
    body[0..4].copy_from_slice(&0x01020304u32.to_le_bytes());
    body[4..6].copy_from_slice(&513u16.to_le_bytes());
    body[12..16].copy_from_slice(&4096u32.to_le_bytes());
    body[35] = 1;
    let bytes = heartbeat_bytes(1, &body);
    match parse_package_head(&bytes) {
        ParseResult::Success(p) => {
            let hb = p.as_heartbeat().expect("heartbeat");
            assert_eq!(hb.mcu_io_state, 0x01020304);
            assert_eq!(hb.mcu_adc_value, 513);
            assert_eq!(hb.tf_size_total, 4096);
            assert_eq!(hb.tf_status, 1);
            assert!(p.as_cmd().is_none());
        }
        other => panic!("unexpected {:?}", other),
    }
    let mut reply = vec![0u8; 40];
    reply[0..2].copy_from_slice(&9u16.to_le_bytes());
    reply[4..8].copy_from_slice(&77u32.to_le_bytes());
    let bytes = heartbeat_bytes(2, &reply);
    match parse_package_head(&bytes) {
        ParseResult::Success(p) => {
            assert!(matches!(p.data, ComPackage::HeartbeatReply(_)));
            let r = p.as_heartbeat_reply().expect("reply");
            assert_eq!(r.src_sn, 9);
            assert_eq!(r.heartbeat_package.mcu_io_state, 77);
        }
        other => panic!("unexpected {:?}", other),
    }
}

#[test]
fn commands_get_a_quick_reply() {
    let c = cmd(3, b"x");
    let bytes = protocol_package_send(&c, McuComMsgType::Cmd, 5, 1);
    let (code, reply) = protocol_parse(&bytes, 8);
    assert_eq!(code, 0);
    let reply = reply.expect("reply");
    assert_eq!(reply, quick_reply(8));
    assert_eq!(&reply[0..4], &[0xAA, 0x55, 5, 0]);
    assert_eq!(&reply[6..8], &[8, 0]);
    assert_eq!(&reply[10..17], &[14, 0, 0x66, 0x66, 1, 0, b'0']);
    assert_eq!(protocol_parse(&bytes[..5], 8), (1, None));
    let hb = heartbeat_bytes(1, &[0u8; 36]);
    assert_eq!(protocol_parse(&hb, 8), (0, None));
    let mut bad = bytes.clone();
    bad[4] ^= 1;
    assert_eq!(protocol_parse(&bad, 8), (-1, None));
}

#[test]
fn status_response_carries_state_in_decimal() {
    let r = common_respond(0x0203, 1, 5);
    assert_eq!(r.len(), 272);
    assert_eq!(&r[2..4], &[10, 0]);
    assert_eq!(&r[10..12], &[14, 0]);
    assert_eq!(&r[12..16], &[0x03, 0x02, 6, 0]);
    assert_eq!(&r[16..22], b"1,0333");
    assert_eq!(r[22], 0);
    assert_eq!(r[4], crc8(&r[5..22]));
    let big = common_respond(1, 65535, 5);
    assert_eq!(&big[14..16], &[10, 0]);
    assert_eq!(&big[16..26], b"65535,0333");
    let zero = common_respond(1, 0, 5);
    assert_eq!(&zero[16..22], b"0,0333");
}

#[test]
fn raw_decoding_reads_head_and_payload() {
    assert!(McuComPackage::bytes_to_struct(&[0u8; 11]).is_none());
    let c = cmd(0x0A0B, b"zz");
    let bytes = protocol_package_send(&c, McuComMsgType::GpsData, 6, 3);
    let p = McuComPackage::bytes_to_struct(&bytes).expect("whole head");
    assert_eq!(p.head.msg_type, 11);
    assert_eq!(p.head.data_len, 6);
    assert!(p.as_cmd().is_none());
    match &p.data {
        ComPackage::Cmd(raw) => {
            assert_eq!(raw.cmd_type, 0x0A0B);
            assert_eq!(raw.data.len(), 256);
        }
        other => panic!("unexpected {:?}", other),
    }
    let head_only = McuComPackage::bytes_to_struct(&bytes[..12]).expect("whole head");
    match head_only.data {
        ComPackage::Cmd(raw) => assert_eq!((raw.cmd_type, raw.cmd_data_len), (0, 0)),
        other => panic!("unexpected {:?}", other),
    }
}
