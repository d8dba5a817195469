use steamdeck_input::protocol::{
    decode_deck_state, encode_clear_digital_mappings, encode_deck_state_report,
    encode_set_digital_mappings, FeatureReportHeader, FeatureReportMsg, ProtocolError,
    SteamDeckStatePacket, ValveInReport, FEATURE_REPORT_MESSAGE_ID_CLEAR_DIGITAL_MAPPINGS,
    FEATURE_REPORT_MESSAGE_ID_SET_DIGITAL_MAPPINGS, VALVE_IN_REPORT_MESSAGE_ID_CONTROLLER_STATUS,
    VALVE_IN_REPORT_MESSAGE_ID_CONTROLLER_DECK_STATE,
};

fn sample_packet() -> SteamDeckStatePacket {
    SteamDeckStatePacket {
        packet_num: 0x04030201,
        buttons: 0xEFCD_AB09_8765_4321,
        left_pad_x: 1234,
        left_pad_y: -1234,
        right_pad_x: 32767,
        right_pad_y: -32768,
        accel_x: 17,
        accel_y: -17,
        accel_z: 1000,
        gyro_x: -2,
        gyro_y: 3,
        gyro_z: -5,
        gyro_quat_w: 7,
        gyro_quat_x: -11,
        gyro_quat_y: 13,
        gyro_quat_z: -19,
        trigger_raw_l: 0,
        trigger_raw_r: 65535,
        left_stick_x: 100,
        left_stick_y: -100,
        right_stick_x: 20000,
        right_stick_y: -20000,
        pressure_pad_left: 42,
        pressure_pad_right: 54321,
    }
}

#[test]
fn roundtrip_encode_then_decode_is_identity() {
    let p = sample_packet();
    let buf = encode_deck_state_report(&p);
    assert_eq!(buf.len(), 64);
    let q = decode_deck_state(&buf).expect("a freshly encoded report must decode");
    assert_eq!(p, q);
}

#[test]
fn roundtrip_through_valve_in_report() {
    let p = sample_packet();
    let buf = encode_deck_state_report(&p);
    let rep = ValveInReport::decode(&buf).expect("64 bytes must split into a report");
    assert_eq!(rep.header.report_version, 1);
    assert_eq!(rep.header.report_type, VALVE_IN_REPORT_MESSAGE_ID_CONTROLLER_DECK_STATE);
    assert_eq!(rep.header.report_length, 64);
    let q = rep.to_deck_state().expect("a valid deck-state header must decode");
    assert_eq!(p, q);
}

#[test]
fn decode_reads_fields_at_their_wire_offsets() {
    let mut buf = [0u8; 64];
    // Header: version 1 (little endian), deck-state type, length 64.
    buf[0] = 0x01;
    buf[1] = 0x00;
    buf[2] = 0x09;
    buf[3] = 64;
    // packet_num at payload offset 0 (buffer offset 4).
    buf[4] = 0x21;
    buf[5] = 0x43;
    buf[6] = 0x65;
    buf[7] = 0x87;
    // buttons at payload offset 4 (buffer offset 8).
    buf[8] = 0x80;
    buf[15] = 0x04;
    // left_pad_x at buffer offset 16: 0x7FFF.
    buf[16] = 0xFF;
    buf[17] = 0x7F;
    // left_pad_y at buffer offset 18: 0x8000 = -32768.
    buf[18] = 0x00;
    buf[19] = 0x80;
    // trigger_raw_l at buffer offset 44: 0x0102.
    buf[44] = 0x02;
    buf[45] = 0x01;
    // left_stick_x at buffer offset 48: -1 = 0xFFFF.
    buf[48] = 0xFF;
    buf[49] = 0xFF;
    // pressure_pad_right at buffer offset 58: 0xD431.
    buf[58] = 0x31;
    buf[59] = 0xD4;
    let p = decode_deck_state(&buf).expect("valid header must decode");
    assert_eq!(p.packet_num, 0x87654321);
    assert_eq!(p.buttons, 0x0400_0000_0000_0080);
    assert_eq!(p.left_pad_x, 32767);
    assert_eq!(p.left_pad_y, -32768);
    assert_eq!(p.right_pad_x, 0);
    assert_eq!(p.trigger_raw_l, 0x0102);
    assert_eq!(p.left_stick_x, -1);
    assert_eq!(p.pressure_pad_right, 0xD431);
}

#[test]
fn short_read_is_a_wrong_size_error() {
    let buf = [0u8; 63];
    match decode_deck_state(&buf) {
        Err(ProtocolError::WrongSize { read }) => assert_eq!(read, 63),
        other => panic!("expected a wrong-size error, got {other:?}"),
    }
}

#[test]
fn zero_length_read_is_a_wrong_size_error() {
    let buf: [u8; 0] = [];
    match decode_deck_state(&buf) {
        Err(ProtocolError::WrongSize { read }) => assert_eq!(read, 0),
        other => panic!("expected a wrong-size error, got {other:?}"),
    }
}

#[test]
fn oversized_read_is_a_wrong_size_error() {
    let buf = [0u8; 65];
    match decode_deck_state(&buf) {
        Err(ProtocolError::WrongSize { read }) => assert_eq!(read, 65),
        other => panic!("expected a wrong-size error, got {other:?}"),
    }
}

#[test]
fn wrong_version_is_an_unknown_message_error() {
    let p = sample_packet();
    let mut buf = encode_deck_state_report(&p);
    buf[0] = 0x02;
    match decode_deck_state(&buf) {
        Err(ProtocolError::UnknownMessage { version, report_type, report_length }) => {
            assert_eq!(version, 2);
            assert_eq!(report_type, 9);
            assert_eq!(report_length, 64);
        }
        other => panic!("expected an unknown-message error, got {other:?}"),
    }
}

#[test]
fn wrong_report_type_is_an_unknown_message_error() {
    let p = sample_packet();
    let mut buf = encode_deck_state_report(&p);
    buf[2] = VALVE_IN_REPORT_MESSAGE_ID_CONTROLLER_STATUS;
    match decode_deck_state(&buf) {
        Err(ProtocolError::UnknownMessage { version, report_type, report_length }) => {
            assert_eq!(version, 1);
            assert_eq!(report_type, 4);
            assert_eq!(report_length, 64);
        }
        other => panic!("expected an unknown-message error, got {other:?}"),
    }
}

#[test]
fn wrong_declared_length_is_an_unknown_message_error() {
    let p = sample_packet();
    let mut buf = encode_deck_state_report(&p);
    buf[3] = 63;
    match decode_deck_state(&buf) {
        Err(ProtocolError::UnknownMessage { report_length, .. }) => {
            assert_eq!(report_length, 63);
        }
        other => panic!("expected an unknown-message error, got {other:?}"),
    }
}

#[test]
fn clear_mappings_command_has_only_the_type_byte_set() {
    let buf = encode_clear_digital_mappings();
    assert_eq!(buf.len(), 65);
    assert_eq!(buf[1], FEATURE_REPORT_MESSAGE_ID_CLEAR_DIGITAL_MAPPINGS);
    for (i, b) in buf.iter().enumerate() {
        if i != 1 {
            assert_eq!(*b, 0, "byte {i} must be zero");
        }
    }
}

#[test]
fn set_mappings_command_carries_the_two_pad_mappings() {
    let buf = encode_set_digital_mappings();
    assert_eq!(buf.len(), 65);
    assert_eq!(buf[0], 0);
    assert_eq!(buf[1], FEATURE_REPORT_MESSAGE_ID_SET_DIGITAL_MAPPINGS);
    assert_eq!(buf[2], 20);
    // First mapping: right pad click bit 0x40000, device kind 1, button 1.
    assert_eq!(&buf[3..11], &[0x00, 0x00, 0x04, 0x00, 0x00, 0x00, 0x00, 0x00]);
    assert_eq!(buf[11], 1);
    assert_eq!(buf[12], 1);
    // Second mapping: left pad click bit 0x20000, device kind 1, button 2.
    assert_eq!(&buf[13..21], &[0x00, 0x00, 0x02, 0x00, 0x00, 0x00, 0x00, 0x00]);
    assert_eq!(buf[21], 1);
    assert_eq!(buf[22], 2);
    for i in 23..65 {
        assert_eq!(buf[i], 0, "byte {i} must be zero");
    }
}

#[test]
fn feature_report_msg_encodes_prefix_header_and_payload() {
    let mut payload = [0u8; 60];
    payload[0] = 0xAA;
    payload[59] = 0xBB;
    let msg = FeatureReportMsg {
        header: FeatureReportHeader { report_type: 0x8D, report_length: 7 },
        payload,
    };
    let buf = msg.encode();
    assert_eq!(buf.len(), 65);
    assert_eq!(buf[0], 0);
    assert_eq!(buf[1], 0x8D);
    assert_eq!(buf[2], 7);
    assert_eq!(buf[3], 0xAA);
    assert_eq!(buf[62], 0xBB);
    assert_eq!(buf[63], 0);
    assert_eq!(buf[64], 0);
}
