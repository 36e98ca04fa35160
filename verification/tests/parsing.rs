use bytes::Bytes;
use gb26875::error::ProtocolError;
use gb26875::protocol::gb26875::parser::ParserImpl;
use gb26875::protocol::gb26875::types::{
    ProtocolAHeader, ProtocolAMessage, ProtocolVersion, Timestamp, END_MARKER, HEADER_SIZE,
    MAGIC_NUMBER,
};
use gb26875::protocol::traits::{ProtocolMessage, ProtocolParser};

fn message(data: &[u8]) -> ProtocolAMessage {
    ProtocolAMessage {
        header: ProtocolAHeader {
            magic: MAGIC_NUMBER,
            service_id: 0x0102,
            version: ProtocolVersion { main_version: 1, user_version: 2 },
            timestamp: Timestamp { second: 10, minute: 20, hour: 30, day: 1, month: 2, year: 24 },
            src_addr: [1, 2, 3, 4, 5, 6],
            dst_addr: [7, 8, 9, 10, 11, 12],
            data_unit_len: data.len() as u16,
            control: 2,
        },
        data: Bytes::copy_from_slice(data),
        checksum: 0x5a,
    }
}

fn expected_frame(data: &[u8]) -> Vec<u8> {
    let mut v = vec![0x40, 0x40, 0x01, 0x02, 1, 2, 10, 20, 30, 1, 2, 24];
    v.extend_from_slice(&[1, 2, 3, 4, 5, 6, 7, 8, 9, 10, 11, 12]);
    v.extend_from_slice(&[(data.len() >> 8) as u8, data.len() as u8, 2]);
    v.extend_from_slice(data);
    v.push(0x5a);
    v.extend_from_slice(&[0x23, 0x23]);
    v
}

#[test]
fn constants() {
    assert_eq!(MAGIC_NUMBER, 0x4040);
    assert_eq!(END_MARKER, 0x2323);
    assert_eq!(HEADER_SIZE, 27);
}

#[test]
fn encode_writes_the_frame() {
    let m = message(&[0xaa, 0xbb, 0xcc]);
    let b = ParserImpl.encode(&m).unwrap();
    assert_eq!(&b[..], &expected_frame(&[0xaa, 0xbb, 0xcc])[..]);
    assert_eq!(b.len(), 33);
}

#[test]
fn encode_writes_the_header_magic_as_given() {
    let mut m = message(&[]);
    m.header.magic = 0x1234;
    m.header.data_unit_len = 7;
    let b = ParserImpl.encode(&m).unwrap();
    assert_eq!(&b[..2], &[0x12, 0x34]);
    assert_eq!(&b[24..26], &[0x00, 0x07]);
    assert_eq!(b.len(), 30);
}

#[test]
fn to_bytes_is_the_encoding() {
    let m = message(&[1, 2, 3, 4]);
    let a = m.to_bytes().unwrap();
    let b = ParserImpl.encode(&m).unwrap();
    assert_eq!(a, b);
}

#[test]
fn parse_reads_every_field() {
    let f = expected_frame(&[9, 8, 7]);
    let m = ParserImpl.parse(Bytes::from(f)).unwrap();
    assert_eq!(m.header.magic, 0x4040);
    assert_eq!(m.header.service_id, 0x0102);
    assert_eq!(m.header.version.main_version, 1);
    assert_eq!(m.header.version.user_version, 2);
    assert_eq!(m.header.timestamp.second, 10);
    assert_eq!(m.header.timestamp.minute, 20);
    assert_eq!(m.header.timestamp.hour, 30);
    assert_eq!(m.header.timestamp.day, 1);
    assert_eq!(m.header.timestamp.month, 2);
    assert_eq!(m.header.timestamp.year, 24);
    assert_eq!(m.header.src_addr, [1, 2, 3, 4, 5, 6]);
    assert_eq!(m.header.dst_addr, [7, 8, 9, 10, 11, 12]);
    assert_eq!(m.header.data_unit_len, 3);
    assert_eq!(m.header.control, 2);
    assert_eq!(&m.data[..], &[9, 8, 7]);
    assert_eq!(m.checksum, 0x5a);
}

#[test]
fn parse_bad_magic() {
    let mut f = expected_frame(&[]);
    f[0] = 0x41;
    match ParserImpl.parse(Bytes::from(f)) {
        Err(ProtocolError::InvalidMagic { expected, got }) => {
            assert_eq!(expected, 0x4040);
            assert_eq!(got, 0x4140);
        }
        _ => panic!("expected an invalid magic error"),
    }
}

#[test]
fn parse_bad_magic_two_bytes() {
    match ParserImpl.parse(Bytes::from_static(&[0x00, 0x01])) {
        Err(ProtocolError::InvalidMagic { expected, got }) => {
            assert_eq!(expected, 0x4040);
            assert_eq!(got, 0x0001);
        }
        _ => panic!("expected an invalid magic error"),
    }
}

#[test]
fn parse_ignores_end_marker_and_trailing_bytes() {
    let mut f = expected_frame(&[1]);
    let n = f.len();
    f[n - 1] = 0;
    f.extend_from_slice(&[5, 5]);
    let m = ParserImpl.parse(Bytes::from(f)).unwrap();
    assert_eq!(&m.data[..], &[1]);
    assert_eq!(m.checksum, 0x5a);
}

#[test]
fn parse_then_encode_round_trip() {
    let f = expected_frame(&[3, 1, 4, 1, 5]);
    let m = ParserImpl.parse(Bytes::from(f.clone())).unwrap();
    let b = ParserImpl.encode(&m).unwrap();
    assert_eq!(&b[..], &f[..]);
}

#[test]
fn encode_then_parse_round_trip() {
    let m = message(&[2, 7, 1, 8]);
    let b = ParserImpl.encode(&m).unwrap();
    let p = ParserImpl.parse(b).unwrap();
    assert_eq!(p.header.service_id, m.header.service_id);
    assert_eq!(p.header.src_addr, m.header.src_addr);
    assert_eq!(p.header.dst_addr, m.header.dst_addr);
    assert_eq!(p.header.data_unit_len, m.header.data_unit_len);
    assert_eq!(p.header.control, m.header.control);
    assert_eq!(p.data, m.data);
    assert_eq!(p.checksum, m.checksum);
}

#[test]
fn can_parse_matches_what_parse_needs() {
    let f = expected_frame(&[1, 2, 3]);
    assert!(ParserImpl.can_parse(&f));
    assert!(!ParserImpl.can_parse(&f[..f.len() - 1]));
    assert!(!ParserImpl.can_parse(&f[..1]));
    assert!(ParserImpl.can_parse(&[0x00, 0x00]));
    assert!(!ParserImpl.can_parse(&f[..20]));
}

#[test]
fn message_type_and_summary() {
    let m = message(&[1, 2, 3]);
    assert_eq!(m.message_type(), "ProtocolA");
    assert_eq!(m.summary(), "ProtocolA[service_id=258, data_len=3]");
    let z = ProtocolAMessage { data: Bytes::new(), ..message(&[]) };
    assert_eq!(z.summary(), "ProtocolA[service_id=258, data_len=0]");
}

#[test]
fn io_error_becomes_io_variant() {
    let e: ProtocolError = std::io::Error::new(std::io::ErrorKind::UnexpectedEof, "closed").into();
    match e {
        ProtocolError::IO(inner) => assert_eq!(inner.kind(), std::io::ErrorKind::UnexpectedEof),
        _ => panic!("expected an I/O error"),
    }
}
