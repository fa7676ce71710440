use rlbot::wire::{encode_frame, read_header, u16_from_be, u16_to_be, MAX_PAYLOAD_LEN};

#[test]
fn be16_split_and_read() {
    assert_eq!(u16_to_be(0x1234), (0x12, 0x34));
    assert_eq!(u16_to_be(0), (0, 0));
    assert_eq!(u16_to_be(65535), (0xff, 0xff));
    assert_eq!(u16_from_be(0x12, 0x34), 0x1234);
    assert_eq!(u16_from_be(0, 37), 37);
    assert_eq!(u16_from_be(0xff, 0xff), 65535);
}

#[test]
fn frame_layout_exact() {
    let payload = [0xaau8; 37];
    let frame = encode_frame(0x0102, &payload);
    assert_eq!(frame.len(), 4 + 37);
    assert_eq!(&frame[0..4], &[0x01, 0x02, 0x00, 37]);
    assert_eq!(&frame[4..], &payload[..]);
    let header: [u8; 4] = frame[0..4].try_into().unwrap();
    assert_eq!(read_header(&header), (0x0102, 37));
}

#[test]
fn frame_length_field_matches_payload() {
    for len in [0usize, 1, 2, 255, 256, 4096, MAX_PAYLOAD_LEN] {
        let payload = vec![0x5cu8; len];
        let frame = encode_frame(7, &payload);
        assert_eq!(frame.len(), 4 + len);
        let header: [u8; 4] = frame[0..4].try_into().unwrap();
        let (tag, declared) = read_header(&header);
        assert_eq!(tag, 7);
        assert_eq!(declared as usize, len);
        assert_eq!(&frame[4..], &payload[..]);
    }
}

#[test]
fn empty_payload_frame_is_header_only() {
    let frame = encode_frame(14, &[]);
    assert_eq!(frame, vec![0, 14, 0, 0]);
}
