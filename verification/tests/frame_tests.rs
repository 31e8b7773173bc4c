use mate::frame::{decode_frame, encode_frame, frame_payload_len, FRAME_HEADER_LEN};
use mate::npipe::c_path_bytes;

#[test]
fn frame_carries_length_then_payload() {
    let f = encode_frame(&[1, 2, 3]);
    assert_eq!(f, vec![3, 0, 0, 0, 0, 0, 0, 0, 1, 2, 3]);
}

#[test]
fn long_payload_length_is_little_endian() {
    let payload = vec![7u8; 300];
    let f = encode_frame(&payload);
    assert_eq!(&f[..8], &[44, 1, 0, 0, 0, 0, 0, 0]);
    assert_eq!(frame_payload_len(&f[..8]), Some(300));
}

#[test]
fn frame_roundtrip_with_trailing_bytes() {
    let mut f = encode_frame(b"hello");
    f.extend_from_slice(&[9, 9]);
    let (p, used) = decode_frame(&f).unwrap();
    assert_eq!(p, b"hello".to_vec());
    assert_eq!(used, FRAME_HEADER_LEN + 5);
}

#[test]
fn incomplete_frame_decodes_to_nothing() {
    let f = encode_frame(b"hello");
    assert!(decode_frame(&f[..f.len() - 1]).is_none());
    assert!(decode_frame(&f[..4]).is_none());
    assert!(decode_frame(&[]).is_none());
}

#[test]
fn empty_payload_frame() {
    let f = encode_frame(&[]);
    assert_eq!(f, vec![0; 8]);
    assert_eq!(decode_frame(&f), Some((vec![], 8)));
}

#[test]
fn header_of_wrong_size_is_refused() {
    assert_eq!(frame_payload_len(&[1, 0, 0]), None);
    assert_eq!(frame_payload_len(&[1, 0, 0, 0, 0, 0, 0, 0, 0]), None);
    assert_eq!(frame_payload_len(&[0xff; 8]), Some(u64::MAX));
}

#[test]
fn c_path_is_nul_terminated() {
    assert_eq!(c_path_bytes(b"/tmp/x"), b"/tmp/x\0".to_vec());
    assert_eq!(c_path_bytes(b""), vec![0]);
}

#[test]
fn frames_read_back_in_order() {
    let mut buf = encode_frame(b"one");
    buf.extend(encode_frame(b""));
    buf.extend(encode_frame(b"three"));
    let mut payloads = Vec::new();
    let mut rest: &[u8] = &buf;
    while let Some((p, used)) = decode_frame(rest) {
        payloads.push(p);
        rest = &rest[used..];
    }
    assert_eq!(payloads, vec![b"one".to_vec(), vec![], b"three".to_vec()]);
    assert!(rest.is_empty());
}
