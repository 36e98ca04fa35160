use bytes::{Bytes, BytesMut};
use gb26875::error::ProtocolError;
use gb26875::protocol::gb26875::framing::FrameDetectorImpl;
use gb26875::protocol::traits::FrameDetector;

/// A frame with the given data, whose header's data length (offsets 24 and 25)
/// announces it.
fn frame(data: &[u8]) -> Vec<u8> {
    let n = data.len();
    assert!(n < 65536);
    let mut v = vec![0x40, 0x40, 0x00, 0x01, 0x01, 0x02];
    v.extend_from_slice(&[10, 20, 30, 1, 2, 24]);
    v.extend_from_slice(&[1, 2, 3, 4, 5, 6]);
    v.extend_from_slice(&[7, 8, 9, 10, 11, 12]);
    v.extend_from_slice(&[(n >> 8) as u8, n as u8, 0x02]);
    v.extend_from_slice(data);
    v.push(0x5a);
    v.extend_from_slice(&[0x23, 0x23]);
    v
}

fn detect(bytes: &[u8]) -> Result<Option<usize>, ProtocolError> {
    let mut d = FrameDetectorImpl::new();
    d.detect_frame(&BytesMut::from(bytes))
}

#[test]
fn detect_needs_at_least_a_minimal_frame() {
    assert!(matches!(detect(&[0x40; 29]), Ok(None)));
    assert!(matches!(detect(&[]), Ok(None)));
}

#[test]
fn detect_complete_frame() {
    let f = frame(&[1, 2, 3]);
    assert_eq!(f.len(), 33);
    assert!(matches!(detect(&f), Ok(Some(33))));
}

#[test]
fn detect_complete_frame_with_trailing_bytes() {
    let mut f = frame(&[1, 2, 3]);
    f.extend_from_slice(&[9, 9, 9, 9]);
    assert!(matches!(detect(&f), Ok(Some(33))));
}

#[test]
fn detect_empty_data_frame() {
    let f = frame(&[]);
    assert_eq!(f.len(), 30);
    assert!(matches!(detect(&f), Ok(Some(30))));
}

#[test]
fn detect_partial_frame_needs_more() {
    let f = frame(&[1, 2, 3, 4, 5, 6, 7, 8]);
    for k in 0..f.len() {
        assert!(matches!(detect(&f[..k]), Ok(None)), "prefix {}", k);
    }
}

#[test]
fn detect_without_magic_short_buffer_needs_more() {
    assert!(matches!(detect(&[0u8; 100]), Ok(None)));
    assert!(matches!(detect(&[0u8; 2047]), Ok(None)));
}

#[test]
fn detect_without_magic_full_buffer_is_error() {
    match detect(&[0u8; 2048]) {
        Err(ProtocolError::ParseError(m)) => {
            assert_eq!(m, "No magic number found within max frame size")
        }
        _ => panic!("expected a parse error"),
    }
}

#[test]
fn detect_skips_to_first_magic() {
    let mut buf = vec![1, 2, 3];
    buf.extend_from_slice(&frame(&[5]));
    // the frame starts at offset 3; the answer is the frame's own length
    assert!(matches!(detect(&buf), Ok(Some(31))));
}

#[test]
fn detect_frame_too_long() {
    let mut f = frame(&[]);
    // data length 0x07ff -> 2047 data bytes -> 2077 in all
    f[24] = 0x07;
    f[25] = 0xff;
    assert!(matches!(detect(&f), Err(ProtocolError::InvalidLength(2077))));
}

#[test]
fn detect_frame_exactly_max_size() {
    let data = vec![0u8; 2018];
    let mut f = frame(&[]);
    f.truncate(27);
    f[24] = (2018u16 >> 8) as u8;
    f[25] = (2018u16 & 0xff) as u8;
    f.extend_from_slice(&data);
    f.push(0);
    f.extend_from_slice(&[0x23, 0x23]);
    assert_eq!(f.len(), 2048);
    assert!(matches!(detect(&f), Ok(Some(2048))));
}

#[test]
fn detect_bad_end_marker() {
    let mut f = frame(&[1, 2]);
    let n = f.len();
    f[n - 2] = 0x12;
    f[n - 1] = 0x34;
    match detect(&f) {
        Err(ProtocolError::ParseError(m)) => assert_eq!(m, "Invalid end marker: 0x1234"),
        _ => panic!("expected a parse error"),
    }
}

#[test]
fn detect_bad_end_marker_small_value() {
    let mut f = frame(&[]);
    let n = f.len();
    f[n - 2] = 0x00;
    f[n - 1] = 0x00;
    match detect(&f) {
        Err(ProtocolError::ParseError(m)) => assert_eq!(m, "Invalid end marker: 0x0"),
        _ => panic!("expected a parse error"),
    }
}

#[test]
fn detect_complete_frame_with_control_byte() {
    // data length 1 at offsets 24..26, control byte 2, one data byte, checksum, end marker
    let f = [
        0x40u8, 0x40, 0x00, 0x01, 0x01, 0x00, 0, 0, 0, 0, 0, 0, 0, 0, 0, 0, 0, 0, 0, 0, 0, 0, 0,
        0, 0x00, 0x01, 0x02, 0xAA, 0x00, 0x23, 0x23,
    ];
    assert!(matches!(detect(&f), Ok(Some(31))));
}

#[test]
fn detect_reads_the_header_data_length() {
    // header data length 0x0100 = 256: a 286-byte frame, of which 30 bytes are here
    let mut f = frame(&[]);
    f[24] = 0x01;
    f[25] = 0x00;
    assert!(matches!(detect(&f), Ok(None)));
}

#[test]
fn detect_twice_gives_the_same_answer() {
    let f = frame(&[1, 2]);
    let buf = BytesMut::from(&f[..]);
    let mut d = FrameDetectorImpl::new();
    let a = d.detect_frame(&buf);
    let b = d.detect_frame(&buf);
    assert!(matches!((a, b), (Ok(Some(32)), Ok(Some(32)))));
}

#[test]
fn detect_does_not_consume() {
    let f = frame(&[1]);
    let buf = BytesMut::from(&f[..]);
    let mut d = FrameDetectorImpl::new();
    let _ = d.detect_frame(&buf);
    assert_eq!(&buf[..], &f[..]);
    let _ = Bytes::new();
}

#[test]
fn detect_frame_one_over_max_size() {
    let mut f = frame(&[]);
    // 2019 data bytes -> 2049 in all
    f[24] = (2019u16 >> 8) as u8;
    f[25] = (2019u16 & 0xff) as u8;
    assert!(matches!(detect(&f), Err(ProtocolError::InvalidLength(2049))));
}
