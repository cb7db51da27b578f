use executor_service::frame::{encode_frame, FrameBuffer};

#[test]
fn frame_is_length_prefix_then_payload() {
    assert_eq!(encode_frame(&[7u8, 8, 9]), Ok(vec![3u8, 0, 0, 0, 7, 8, 9]));
    assert_eq!(encode_frame(&[]), Ok(vec![0u8, 0, 0, 0]));
}

#[test]
fn frame_length_is_little_endian() {
    let payload: Vec<u8> = vec![1u8; 0x0102];
    let frame = encode_frame(&payload).unwrap();
    assert_eq!(&frame[..4], &[0x02u8, 0x01, 0, 0]);
    assert_eq!(frame.len(), 4 + 0x0102);
    assert_eq!(&frame[4..], &payload[..]);
}

#[test]
fn buffer_hands_out_a_frame_only_when_complete() {
    let frame = encode_frame(&[7u8, 8, 9]).unwrap();
    let mut buffer = FrameBuffer::new();
    assert_eq!(buffer.next_frame(), None);
    buffer.extend(&frame[..2]);
    assert_eq!(buffer.next_frame(), None);
    buffer.extend(&frame[2..6]);
    assert_eq!(buffer.next_frame(), None);
    assert_eq!(buffer.len(), 6);
    buffer.extend(&frame[6..]);
    assert_eq!(buffer.next_frame(), Some(vec![7u8, 8, 9]));
    assert_eq!(buffer.len(), 0);
    assert_eq!(buffer.next_frame(), None);
}

#[test]
fn buffer_keeps_what_follows_a_frame() {
    let mut stream = encode_frame(&[1u8]).unwrap();
    stream.extend_from_slice(&encode_frame(&[]).unwrap());
    stream.extend_from_slice(&encode_frame(&[2u8, 3]).unwrap());
    stream.push(5);
    let mut buffer = FrameBuffer::new();
    buffer.extend(&stream);
    assert_eq!(buffer.next_frame(), Some(vec![1u8]));
    assert_eq!(buffer.next_frame(), Some(vec![]));
    assert_eq!(buffer.next_frame(), Some(vec![2u8, 3]));
    assert_eq!(buffer.next_frame(), None);
    assert_eq!(buffer.len(), 1);
}
