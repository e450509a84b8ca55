use sonar_core::protocol::{
    CmdData, DecodeError, PeerAddress, ScanFov, SensorData, Status, decode_command,
    decode_telemetry, encode_command, encode_telemetry,
};

#[test]
fn test_cmd_serialize() {
    let d = CmdData::Operation(Status::Start);
    let encoded = encode_command(&d);

    println!("{}", encoded.len());

    let decoded: CmdData = decode_command(&encoded).unwrap();

    println!("{:?}", decoded);

    assert_eq!(decoded, d);
}

#[test]
fn command_round_trip_all_variants() {
    let peers = [
        PeerAddress { ip0: 0, ip1: 0, ip2: 0, ip3: 0, port: 0 },
        PeerAddress { ip0: 127, ip1: 0, ip2: 0, ip3: 1, port: 1122 },
        PeerAddress { ip0: 255, ip1: 255, ip2: 255, ip3: 255, port: 65535 },
        PeerAddress { ip0: 192, ip1: 168, ip2: 1, ip3: 42, port: 256 },
    ];
    let mut cmds = vec![
        CmdData::FoV(ScanFov::Narrow),
        CmdData::FoV(ScanFov::Wide),
        CmdData::Operation(Status::Start),
        CmdData::Operation(Status::Stop),
        CmdData::Reset,
    ];
    for p in peers {
        cmds.push(CmdData::PeerAddr(p));
    }
    for c in cmds {
        let frame = encode_command(&c);
        assert_eq!(frame.len(), 8);
        assert_eq!(decode_command(&frame), Ok(c));
    }
}

#[test]
fn command_frames_are_exact_bytes() {
    // Tag byte first, payload next, zero padding; the port travels
    // little-endian.
    assert_eq!(encode_command(&CmdData::FoV(ScanFov::Narrow)), vec![0, 0, 0, 0, 0, 0, 0, 0]);
    assert_eq!(encode_command(&CmdData::FoV(ScanFov::Wide)), vec![0, 1, 0, 0, 0, 0, 0, 0]);
    assert_eq!(encode_command(&CmdData::Operation(Status::Start)), vec![1, 0, 0, 0, 0, 0, 0, 0]);
    assert_eq!(encode_command(&CmdData::Operation(Status::Stop)), vec![1, 1, 0, 0, 0, 0, 0, 0]);
    assert_eq!(encode_command(&CmdData::Reset), vec![3, 0, 0, 0, 0, 0, 0, 0]);
    let p = PeerAddress { ip0: 1, ip1: 2, ip2: 3, ip3: 4, port: 0x1234 };
    assert_eq!(encode_command(&CmdData::PeerAddr(p)), vec![2, 1, 2, 3, 4, 0x34, 0x12, 0]);
}

#[test]
fn command_decode_rejects_wrong_length() {
    assert_eq!(decode_command(&[]), Err(DecodeError::WrongLength));
    assert_eq!(decode_command(&[0, 0, 0, 0, 0, 0, 0]), Err(DecodeError::WrongLength));
    assert_eq!(decode_command(&[0, 0, 0, 0, 0, 0, 0, 0, 0]), Err(DecodeError::WrongLength));
}

#[test]
fn command_decode_rejects_bad_tag() {
    assert_eq!(decode_command(&[4, 0, 0, 0, 0, 0, 0, 0]), Err(DecodeError::BadTag));
    assert_eq!(decode_command(&[255, 0, 0, 0, 0, 0, 0, 0]), Err(DecodeError::BadTag));
}

#[test]
fn command_decode_rejects_bad_payload() {
    // Unknown field-of-view and status payload bytes.
    assert_eq!(decode_command(&[0, 2, 0, 0, 0, 0, 0, 0]), Err(DecodeError::BadPayload));
    assert_eq!(decode_command(&[1, 9, 0, 0, 0, 0, 0, 0]), Err(DecodeError::BadPayload));
    // Nonzero padding: each value has exactly one encoding.
    assert_eq!(decode_command(&[0, 0, 0, 0, 0, 0, 0, 1]), Err(DecodeError::BadPayload));
    assert_eq!(decode_command(&[2, 1, 2, 3, 4, 5, 6, 7]), Err(DecodeError::BadPayload));
    assert_eq!(decode_command(&[3, 0, 0, 0, 1, 0, 0, 0]), Err(DecodeError::BadPayload));
}

#[test]
fn telemetry_round_trip_all_extremes() {
    for angle in [0, 1, -1, 45, -45, 90, -90, i32::MAX, i32::MIN] {
        let frame = encode_telemetry(&SensorData { angle });
        assert_eq!(frame.len(), 4);
        assert_eq!(decode_telemetry(&frame), Ok(SensorData { angle }));
    }
}

#[test]
fn telemetry_frames_are_exact_bytes() {
    // Little-endian two's complement, documented and platform-independent.
    assert_eq!(encode_telemetry(&SensorData { angle: 1 }), vec![1, 0, 0, 0]);
    assert_eq!(encode_telemetry(&SensorData { angle: -1 }), vec![255, 255, 255, 255]);
    assert_eq!(encode_telemetry(&SensorData { angle: 90 }), vec![90, 0, 0, 0]);
    assert_eq!(encode_telemetry(&SensorData { angle: -90 }), vec![166, 255, 255, 255]);
    assert_eq!(encode_telemetry(&SensorData { angle: 258 }), vec![2, 1, 0, 0]);
}

#[test]
fn telemetry_decode_rejects_wrong_length() {
    assert_eq!(decode_telemetry(&[]), Err(DecodeError::WrongLength));
    assert_eq!(decode_telemetry(&[1, 2, 3]), Err(DecodeError::WrongLength));
    assert_eq!(decode_telemetry(&[1, 2, 3, 4, 5]), Err(DecodeError::WrongLength));
}

#[test]
fn fov_bounds_are_fixed() {
    assert_eq!(ScanFov::Narrow.angle(), (-45, 45));
    assert_eq!(ScanFov::Wide.angle(), (-90, 90));
}
