use bytes::BytesMut;
use gb26875::codec::dispatcher::ProtocolCodec;
use gb26875::codec::registry::ProtocolRegistry;
use gb26875::error::ProtocolError;
use gb26875::protocol::gb26875::ProtocolA;
use gb26875::protocol::gb26875::parser::ParserImpl;
use gb26875::protocol::gb26875::types::{
    ProtocolAHeader, ProtocolAMessage, ProtocolVersion, Timestamp, MAGIC_NUMBER,
};
use gb26875::protocol::traits::{Protocol, ProtocolParser};

/// A frame whose header announces its data.
fn frame(data: &[u8]) -> Vec<u8> {
    let n = data.len();
    let mut v = vec![0x40, 0x40, 0x00, 0x07, 0x01, 0x00, 0, 0, 0, 1, 1, 24];
    v.extend_from_slice(&[1, 1, 1, 1, 1, 1, 2, 2, 2, 2, 2, 2]);
    v.extend_from_slice(&[(n >> 8) as u8, n as u8, 0x05]);
    v.extend_from_slice(data);
    v.push(0x11);
    v.extend_from_slice(&[0x23, 0x23]);
    v
}

#[test]
fn protocol_a_name_and_version() {
    assert_eq!(ProtocolA.name(), "ProtocolA");
    assert_eq!(ProtocolA.version(), "1.0");
}

#[test]
fn decode_takes_one_frame_and_leaves_the_rest() {
    let mut codec = ProtocolCodec::new(&ProtocolA);
    let data: Vec<u8> = (0..257u32).map(|i| i as u8).collect();
    let mut buf = BytesMut::from(&frame(&data)[..]);
    buf.extend_from_slice(&[0x40, 0x40, 0x00]);
    assert!(codec.can_decode(&buf));
    let m = codec.decode(&mut buf).unwrap().unwrap();
    assert_eq!(m.header.service_id, 7);
    assert_eq!(m.header.data_unit_len, 257);
    assert_eq!(&m.data[..], &data[..]);
    assert_eq!(m.checksum, 0x11);
    assert_eq!(&buf[..], &[0x40, 0x40, 0x00]);
}

#[test]
fn decode_incomplete_leaves_buffer() {
    let mut codec = ProtocolCodec::new(&ProtocolA);
    let f = frame(&[7u8; 257]);
    let mut buf = BytesMut::from(&f[..100]);
    assert!(matches!(codec.decode(&mut buf), Ok(None)));
    assert_eq!(&buf[..], &f[..100]);
}

#[test]
fn decode_error_leaves_buffer() {
    let mut codec = ProtocolCodec::new(&ProtocolA);
    let mut f = frame(&[]);
    let n = f.len();
    f[n - 1] = 0x24;
    let mut buf = BytesMut::from(&f[..]);
    match codec.decode(&mut buf) {
        Err(ProtocolError::ParseError(m)) => assert_eq!(m, "Invalid end marker: 0x2324"),
        _ => panic!("expected a parse error"),
    }
    assert_eq!(&buf[..], &f[..]);
}

#[test]
fn decode_two_frames_in_a_row() {
    let mut codec = ProtocolCodec::new(&ProtocolA);
    let mut buf = BytesMut::from(&frame(&[])[..]);
    buf.extend_from_slice(&frame(&[2u8; 257])[..]);
    let a = codec.decode(&mut buf).unwrap().unwrap();
    let b = codec.decode(&mut buf).unwrap().unwrap();
    assert!(a.data.is_empty());
    assert_eq!(&b.data[..], &[2u8; 257][..]);
    assert!(buf.is_empty());
    assert!(matches!(codec.decode(&mut buf), Ok(None)));
}

#[test]
fn decode_frame_after_garbage_is_cut_from_the_front() {
    // the detector finds the frame at offset 2 and answers its length; the codec
    // takes that many bytes from the front of the buffer, so the parser sees the
    // garbage first and reports the start marker it got
    let mut codec = ProtocolCodec::new(&ProtocolA);
    let mut buf = BytesMut::from(&[0x01, 0x02][..]);
    buf.extend_from_slice(&frame(&[])[..]);
    assert!(codec.can_decode(&buf));
    match codec.decode(&mut buf) {
        Err(ProtocolError::InvalidMagic { expected, got }) => {
            assert_eq!(expected, 0x4040);
            assert_eq!(got, 0x0102);
        }
        _ => panic!("expected an invalid magic error"),
    }
    assert_eq!(buf.len(), 2);
}

#[test]
fn decode_waits_for_the_announced_data() {
    // 30 bytes whose header announces 256 data bytes: the frame is incomplete
    let mut codec = ProtocolCodec::new(&ProtocolA);
    let mut f = frame(&[]);
    f[24] = 0x01;
    f[25] = 0x00;
    let mut buf = BytesMut::from(&f[..]);
    assert!(codec.can_decode(&buf));
    assert!(matches!(codec.decode(&mut buf), Ok(None)));
    assert_eq!(&buf[..], &f[..]);
}

#[test]
fn can_decode_any_buffer() {
    let mut codec = ProtocolCodec::new(&ProtocolA);
    let mut buf = BytesMut::from(&[0x01, 0x40, 0x40][..]);
    buf.extend_from_slice(&frame(&[9, 9])[..]);
    for k in 0..buf.len() {
        assert!(codec.can_decode(&BytesMut::from(&buf[..k])));
    }
}

#[test]
fn registry_starts_empty() {
    let r = ProtocolRegistry::new();
    assert!(!r.has_protocol(8080));
    assert_eq!(r.get_protocol_name(8080), None);
}

#[test]
fn registry_register_then_lookup() {
    let mut r = ProtocolRegistry::new();
    r.register(8080, || ProtocolA);
    assert!(r.has_protocol(8080));
    assert_eq!(r.get_protocol_name(8080), Some("ProtocolA"));
    assert!(!r.has_protocol(8081));
    assert_eq!(r.get_protocol_name(8081), None);
}

#[test]
fn registry_register_twice_keeps_one_entry() {
    let mut r = ProtocolRegistry::new();
    r.register(8080, || ProtocolA);
    r.register(8080, || ProtocolA);
    r.register(9000, || ProtocolA);
    assert_eq!(r.get_protocol_name(8080), Some("ProtocolA"));
    assert_eq!(r.get_protocol_name(9000), Some("ProtocolA"));
}

fn message(data: Vec<u8>, control: u8) -> ProtocolAMessage {
    ProtocolAMessage {
        header: ProtocolAHeader {
            magic: MAGIC_NUMBER,
            service_id: 42,
            version: ProtocolVersion { main_version: 1, user_version: 0 },
            timestamp: Timestamp { second: 5, minute: 4, hour: 3, day: 2, month: 1, year: 25 },
            src_addr: [9, 9, 9, 9, 9, 9],
            dst_addr: [8, 8, 8, 8, 8, 8],
            data_unit_len: data.len() as u16,
            control,
        },
        data: bytes::Bytes::from(data),
        checksum: 0x77,
    }
}

#[test]
fn decode_gives_back_an_encoded_message() {
    let data: Vec<u8> = (0..257u32).map(|i| (i * 7) as u8).collect();
    let m = message(data.clone(), 1);
    let encoded = ParserImpl.encode(&m).unwrap();
    let mut buf = BytesMut::from(&encoded[..]);
    buf.extend_from_slice(&[1, 2, 3]);
    let mut codec = ProtocolCodec::new(&ProtocolA);
    assert!(codec.can_decode(&buf));
    let d = codec.decode(&mut buf).unwrap().unwrap();
    assert_eq!(d.header.service_id, 42);
    assert_eq!(d.header.timestamp.year, 25);
    assert_eq!(d.header.src_addr, [9; 6]);
    assert_eq!(d.header.dst_addr, [8; 6]);
    assert_eq!(d.header.data_unit_len, 257);
    assert_eq!(d.header.control, 1);
    assert_eq!(&d.data[..], &data[..]);
    assert_eq!(d.checksum, 0x77);
    assert_eq!(&buf[..], &[1, 2, 3]);
}

#[test]
fn decode_gives_back_an_encoded_empty_message() {
    let m = message(Vec::new(), 0);
    let encoded = ParserImpl.encode(&m).unwrap();
    assert_eq!(encoded.len(), 30);
    let mut buf = BytesMut::from(&encoded[..]);
    let mut codec = ProtocolCodec::new(&ProtocolA);
    let d = codec.decode(&mut buf).unwrap().unwrap();
    assert_eq!(d.header.service_id, 42);
    assert!(d.data.is_empty());
    assert!(buf.is_empty());
}

#[test]
fn decode_gives_back_an_encoded_message_with_any_control_byte() {
    let m = message(vec![1, 2, 3], 0);
    let encoded = ParserImpl.encode(&m).unwrap();
    let mut buf = BytesMut::from(&encoded[..]);
    buf.extend_from_slice(&[0x40]);
    let mut codec = ProtocolCodec::new(&ProtocolA);
    let d = codec.decode(&mut buf).unwrap().unwrap();
    assert_eq!(d.header.control, 0);
    assert_eq!(d.header.data_unit_len, 3);
    assert_eq!(&d.data[..], &[1, 2, 3]);
    assert_eq!(&buf[..], &[0x40]);
}

#[test]
fn registry_lookup_after_registrations() {
    let mut r = ProtocolRegistry::new();
    r.register(1, || ProtocolA);
    r.register(2, || ProtocolA);
    r.register(1, || ProtocolA);
    for port in [1u16, 2] {
        assert!(r.has_protocol(port));
        assert_eq!(r.get_protocol_name(port), Some("ProtocolA"));
    }
    for port in [0u16, 3, 8080] {
        assert!(!r.has_protocol(port));
        assert_eq!(r.get_protocol_name(port), None);
    }
}
