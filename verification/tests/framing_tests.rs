use arclink::errors::ProtocolError;
use arclink::framing::{encode_frame, frame_payload_len, read_frame_sync, MAX_FRAME_PAYLOAD, PROTOCOL_MAGIC};

#[test]
fn encode_frame_writes_magic_length_and_payload() {
    let frame = encode_frame(&[1, 2, 3]).expect("small payload is framed");
    assert_eq!(frame, vec![0x41, 0x52, 0x43, 0x4C, 0, 0, 0, 3, 1, 2, 3]);
    assert_eq!(&frame[0..4], &PROTOCOL_MAGIC);
}

#[test]
fn encode_frame_length_is_big_endian() {
    let payload = vec![7u8; 0x0102];
    let frame = encode_frame(&payload).unwrap();
    assert_eq!(&frame[4..8], &[0, 0, 1, 2]);
    assert_eq!(frame.len(), 8 + 0x0102);
}

#[test]
fn encode_frame_refuses_oversized_payload() {
    let payload = vec![0u8; MAX_FRAME_PAYLOAD + 1];
    assert!(matches!(encode_frame(&payload), Err(ProtocolError::MessageTooLarge)));
    let payload = vec![0u8; MAX_FRAME_PAYLOAD];
    assert!(encode_frame(&payload).is_ok());
}

#[test]
fn read_frame_roundtrip_ignores_trailing_bytes() {
    let mut stream = encode_frame(b"hello").unwrap();
    stream.extend_from_slice(&[9, 9, 9]);
    assert_eq!(read_frame_sync(&stream).unwrap(), b"hello".to_vec());
}

#[test]
fn read_frame_empty_payload() {
    let stream = encode_frame(&[]).unwrap();
    assert_eq!(read_frame_sync(&stream).unwrap(), Vec::<u8>::new());
}

#[test]
fn read_frame_rejects_bad_magic() {
    let stream = [0x41, 0x52, 0x43, 0x4D, 0, 0, 0, 0];
    assert!(matches!(read_frame_sync(&stream), Err(ProtocolError::InvalidMagic)));
}

#[test]
fn read_frame_short_header_is_connection_reset() {
    let stream = [0x41, 0x52, 0x43];
    assert!(matches!(read_frame_sync(&stream), Err(ProtocolError::ConnectionReset)));
}

#[test]
fn read_frame_truncated_payload_is_connection_reset() {
    let stream = [0x41, 0x52, 0x43, 0x4C, 0, 0, 0, 4, 1, 2];
    assert!(matches!(read_frame_sync(&stream), Err(ProtocolError::ConnectionReset)));
}

#[test]
fn read_frame_rejects_oversized_length() {
    let stream = [0x41, 0x52, 0x43, 0x4C, 0x00, 0xA0, 0x00, 0x01];
    assert!(matches!(read_frame_sync(&stream), Err(ProtocolError::MessageTooLarge)));
}

#[test]
fn header_limit_is_inclusive() {
    let header = [0x41, 0x52, 0x43, 0x4C, 0, 0, 0x13, 0x88];
    assert_eq!(frame_payload_len(&header, 5000).unwrap(), 5000);
    assert!(matches!(frame_payload_len(&header, 4999), Err(ProtocolError::MessageTooLarge)));
}
