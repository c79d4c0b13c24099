use flwrs_plugin::frame::{
    decode_frame, decode_packet, encode_frame, frame_message, open_packet, protocol_version,
    push_u32_le, read_packet_len, read_u32_le, FrameError,
};

#[test]
fn frame_bytes_are_exact() {
    let frame = frame_message(&[1, 2, 3]).unwrap();
    assert_eq!(
        frame,
        vec![12, 0, 0, 0, 5, 0, 0, 0, b'1', b'.', b'0', b'.', b'0', 1, 2, 3]
    );
}

#[test]
fn protocol_version_is_one_zero_zero() {
    assert_eq!(protocol_version(), b"1.0.0".to_vec());
}

#[test]
fn round_trip_recovers_payload() {
    let payloads: Vec<Vec<u8>> = vec![vec![], vec![0], vec![255, 0, 7, 9], (0..=255u8).collect()];
    for p in payloads {
        let frame = frame_message(&p).unwrap();
        let version = protocol_version();
        assert_eq!(decode_frame(&frame, &version), Ok(Some(p.clone())));
        assert_eq!(&frame[8..8 + version.len()], version.as_slice());
    }
}

#[test]
fn round_trip_with_other_version() {
    let frame = encode_frame(b"hello", b"2.1").unwrap();
    assert_eq!(decode_frame(&frame, b"2.1"), Ok(Some(b"hello".to_vec())));
}

#[test]
fn payload_length_is_packet_minus_header() {
    let frame = frame_message(&[9; 40]).unwrap();
    let packet_len = read_u32_le(&frame[0..4]);
    let header_len = read_u32_le(&frame[4..8]);
    let payload = open_packet(&frame[4..]).unwrap();
    assert_eq!(payload.len() as u32, packet_len - header_len - 4);
}

#[test]
fn header_differing_in_any_position_is_refused() {
    let frame = frame_message(&[1, 2]).unwrap();
    for i in 0..5 {
        let mut bad = frame.clone();
        bad[8 + i] ^= 1;
        assert_eq!(decode_frame(&bad, &protocol_version()), Err(FrameError::VersionMismatch));
    }
}

#[test]
fn header_of_other_length_is_refused() {
    let frame = encode_frame(&[1], b"1.0").unwrap();
    assert_eq!(decode_frame(&frame, &protocol_version()), Err(FrameError::VersionMismatch));
}

#[test]
fn short_prefix_is_no_message() {
    assert_eq!(read_packet_len(&[]), None);
    assert_eq!(read_packet_len(&[1, 0, 0]), None);
    assert_eq!(decode_frame(&[7, 7, 7], &protocol_version()), Ok(None));
    assert_eq!(read_packet_len(&[1, 2, 0, 0]), Some(0x0201));
}

#[test]
fn packet_too_short_for_header_length() {
    assert_eq!(decode_packet(&[1, 0], b"x"), Err(FrameError::HeaderLengthMissing));
}

#[test]
fn packet_with_truncated_header() {
    assert_eq!(decode_packet(&[9, 0, 0, 0, b'1'], b"1"), Err(FrameError::HeaderLengthMismatch));
}

#[test]
fn stream_shorter_than_declared_packet() {
    let frame = frame_message(&[1, 2, 3]).unwrap();
    assert_eq!(decode_frame(&frame[..frame.len() - 1], &protocol_version()), Err(FrameError::ShortRead));
}

#[test]
fn u32_little_endian() {
    let mut out = vec![0xAA];
    push_u32_le(&mut out, 0x1234_5678);
    assert_eq!(out, vec![0xAA, 0x78, 0x56, 0x34, 0x12]);
    assert_eq!(read_u32_le(&out[1..]), 0x1234_5678);
    assert_eq!(read_u32_le(&[255, 255, 255, 255]), u32::MAX);
}
