use serial_codec::decode;
use serial_codec::encode;
use serial_codec::error::DecodeError;

#[test]
fn test_encode() {
    let data = vec![0x01, 0x02, 0x03];
    let encoded = encode(&data);
    assert_eq!(encoded, vec![0xB3, 0x01, 0x02, 0x03, 0xB3 ^ 0x01 ^ 0x02 ^ 0x03]);

    let data = vec![0x00, 0xFF, 0x55];
    let encoded = encode(&data);
    assert_eq!(encoded, vec![0xB3, 0x00, 0xFF, 0x55, 0xB3 ^ 0x00 ^ 0xFF ^ 0x55]);
}

#[test]
fn test_decode() {
    let encoded = vec![0xB3, 0x01, 0x02, 0x03, 0xB3 ^ 0x01 ^ 0x02 ^ 0x03];
    let decoded = decode(&encoded).unwrap();
    assert_eq!(decoded, vec![0x01, 0x02, 0x03]);

    let encoded = vec![0xB3, 0x00, 0xFF, 0x55, 0xB3 ^ 0x00 ^ 0xFF ^ 0x55];
    let decoded = decode(&encoded).unwrap();
    assert_eq!(decoded, vec![0x00, 0xFF, 0x55]);
}

#[test]
fn test_decode_invalid_checksum() {
    let encoded = vec![0xB3, 0x01, 0x02, 0x03, 0x00];
    let result = decode(&encoded);
    assert!(result.is_err());
    assert_eq!(result.err().map(|e| e.message()), Some("Invalid checksum"));
}

#[test]
fn test_decode_too_short() {
    let encoded = vec![0xB3];
    let result = decode(&encoded);
    assert!(result.is_err());
    assert_eq!(
        result.err().map(|e| e.message()),
        Some("Input is too short to be valid")
    );
}

#[test]
fn test_round_trip() {
    let payloads: Vec<Vec<u8>> = vec![
        vec![],
        vec![0x00],
        vec![0xB3],
        vec![0x01, 0x02, 0x03],
        vec![0xFF; 300],
        (0..=255).collect(),
    ];
    for p in payloads {
        let encoded = encode(&p);
        assert_eq!(encoded.len(), p.len() + 2);
        assert_eq!(decode(&encoded), Ok(p));
    }
}

#[test]
fn test_minimum_length_boundary() {
    assert_eq!(decode(&[]), Err(DecodeError::TooShort));
    assert_eq!(decode(&[0xB3]), Err(DecodeError::TooShort));
    assert_eq!(decode(&[0xB3, 0xB3]), Ok(vec![]));
}

#[test]
fn test_delimiter_enforcement() {
    // The checksum over the single body byte 0x00 is 0x00 itself, so only
    // the delimiter check can reject this frame.
    assert_eq!(decode(&[0x00, 0x00]), Err(DecodeError::BadDelimiter));
}

#[test]
fn test_single_bit_flip_detected() {
    let encoded = encode(&[0x01, 0x02, 0x03]);
    for i in 0..encoded.len() {
        for k in 0..8 {
            let mut corrupted = encoded.clone();
            corrupted[i] ^= 1u8 << k;
            let expected = if i == 0 {
                DecodeError::BadDelimiter
            } else {
                DecodeError::BadChecksum
            };
            assert_eq!(decode(&corrupted), Err(expected));
        }
    }
}

#[test]
fn test_error_messages() {
    assert_eq!(DecodeError::TooShort.message(), "Input is too short to be valid");
    assert_eq!(DecodeError::BadDelimiter.message(), "Invalid frame delimiter");
    assert_eq!(DecodeError::BadChecksum.message(), "Invalid checksum");
    assert_eq!(DecodeError::UnknownFrameId.message(), "Unknown frame ID");
    assert_eq!(DecodeError::TruncatedPayload.message(), "Payload is truncated");
    assert_eq!(DecodeError::TrailingBytes.message(), "Payload has trailing bytes");
}
