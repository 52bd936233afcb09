use serial_codec::decode;
use serial_codec::encode;
use serial_codec::error::DecodeError;
use serial_codec::frame::centi_parts;
use serial_codec::frame::Frame;
use serial_codec::frame::FrameId;

fn all_frames() -> Vec<Frame> {
    vec![
        Frame::Ping,
        Frame::AssignID { address: 0x2A },
        Frame::RequestData,
        Frame::SetStandby,
        Frame::SetDischarge { target: 0x1234 },
        Frame::SetCharge { target: 0xABCD },
        Frame::AnnounceCompletion { status: 0x01 },
    ]
}

#[test]
fn test_frame_id_coverage() {
    for frame in all_frames() {
        let payload = frame.serialize();
        assert!(!payload.is_empty());
        let id = FrameId::from_byte(payload[0]);
        assert!(id.is_some());
        assert_eq!(id.unwrap().to_byte(), payload[0]);
        assert_eq!(Frame::deserialize(&payload), Ok(frame));
    }
}

#[test]
fn test_unknown_id_rejection() {
    assert_eq!(Frame::deserialize(&[0x03]), Err(DecodeError::UnknownFrameId));
    assert_eq!(Frame::deserialize(&[0xFF]), Err(DecodeError::UnknownFrameId));
    assert_eq!(
        Frame::deserialize(&[0x03, 0x00, 0x00]),
        Err(DecodeError::UnknownFrameId)
    );
}

#[test]
fn test_truncated_payload() {
    assert_eq!(Frame::deserialize(&[]), Err(DecodeError::TruncatedPayload));
    assert_eq!(Frame::deserialize(&[0x01]), Err(DecodeError::TruncatedPayload));
    assert_eq!(
        Frame::deserialize(&[0x05, 0x12]),
        Err(DecodeError::TruncatedPayload)
    );
    assert_eq!(Frame::deserialize(&[0x07]), Err(DecodeError::TruncatedPayload));
}

#[test]
fn test_trailing_bytes() {
    assert_eq!(
        Frame::deserialize(&[0x00, 0x00]),
        Err(DecodeError::TrailingBytes)
    );
    assert_eq!(
        Frame::deserialize(&[0x05, 0x12, 0x34, 0x56]),
        Err(DecodeError::TrailingBytes)
    );
}

#[test]
fn test_big_endian_field_layout() {
    let payload = Frame::SetDischarge { target: 0x1234 }.serialize();
    assert_eq!(payload, vec![0x05, 0x12, 0x34]);
    let payload = Frame::SetCharge { target: 0xABCD }.serialize();
    assert_eq!(payload, vec![0x06, 0xAB, 0xCD]);
    assert_eq!(
        Frame::deserialize(&[0x05, 0x12, 0x34]),
        Ok(Frame::SetDischarge { target: 0x1234 })
    );
}

#[test]
fn test_frame_id_bytes() {
    let ids = vec![
        (FrameId::Ping, 0x00),
        (FrameId::AssignID, 0x01),
        (FrameId::RequestData, 0x02),
        (FrameId::SetStandby, 0x04),
        (FrameId::SetDischarge, 0x05),
        (FrameId::SetCharge, 0x06),
        (FrameId::AnnounceCompletion, 0x07),
    ];
    for (id, byte) in ids {
        assert_eq!(id.to_byte(), byte);
        assert_eq!(FrameId::from_byte(byte), Some(id));
    }
    assert_eq!(FrameId::from_byte(0x03), None);
    assert_eq!(FrameId::from_byte(0x08), None);
    assert_eq!(FrameId::from_byte(0xB3), None);
}

#[test]
fn test_frame_over_wire_round_trip() {
    for frame in all_frames() {
        let wire = encode(&frame.serialize());
        let payload = decode(&wire).unwrap();
        assert_eq!(Frame::deserialize(&payload), Ok(frame));
    }
}

#[test]
fn test_centi_parts() {
    assert_eq!(centi_parts(2345), (23, 45));
    assert_eq!(centi_parts(99), (0, 99));
    assert_eq!(centi_parts(100), (1, 0));
    assert_eq!(centi_parts(0), (0, 0));
    assert_eq!(centi_parts(65535), (655, 35));
}
