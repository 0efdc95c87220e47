use irpc::error::{ErrorKind, IoCause, IoError};
use irpc::util::varint::{read_varint_u64, write_varint_u64_sync, VarintReader, VarintStep, MAX_VARINT_LEN};

fn written(value: u64) -> Vec<u8> {
    let mut buf: Vec<u8> = Vec::new();
    let n = write_varint_u64_sync(&mut buf, value).unwrap();
    assert_eq!(n, buf.len());
    buf
}

#[test]
fn varint_exact_bytes() {
    assert_eq!(written(0), vec![0]);
    assert_eq!(written(1), vec![1]);
    assert_eq!(written(127), vec![127]);
    assert_eq!(written(128), vec![0x80, 0x01]);
    assert_eq!(written(300), vec![0xac, 0x02]);
    assert_eq!(written(16384), vec![0x80, 0x80, 0x01]);
    assert_eq!(
        written(u64::MAX),
        vec![0xff, 0xff, 0xff, 0xff, 0xff, 0xff, 0xff, 0xff, 0xff, 0x01]
    );
}

#[test]
fn varint_round_trip() {
    for value in [0u64, 1, 127, 128, 255, 16383, 16384, 1 << 32, 1 << 63, u64::MAX - 1, u64::MAX] {
        let mut bytes = written(value);
        let len = bytes.len();
        bytes.extend([9, 9, 9]);
        assert_eq!(read_varint_u64(&bytes), (Ok(Some(value)), len));
        assert!((1..=MAX_VARINT_LEN).contains(&len));
    }
}

#[test]
fn varint_matches_postcard() {
    for value in [0u64, 5, 200, 70_000, u64::MAX] {
        assert_eq!(written(value), postcard::to_allocvec(&value).unwrap());
    }
}

#[test]
fn varint_end_of_source() {
    assert_eq!(read_varint_u64(&[]), (Ok(None), 0));
    let (r, n) = read_varint_u64(&[0x80]);
    assert_eq!(r.unwrap_err().kind(), ErrorKind::UnexpectedEof);
    assert_eq!(n, 1);
}

#[test]
fn varint_too_large() {
    let (r, n) = read_varint_u64(&[0xff; 12]);
    let e = r.unwrap_err();
    assert_eq!(e.kind(), ErrorKind::InvalidData);
    assert_eq!(e.text(), "Varint is too large for u64");
    assert_eq!(n, 10);
}

#[test]
fn varint_excess_bits_are_dropped() {
    // The tenth byte has room for one bit only.
    let mut bytes = [0x80u8; 10];
    bytes[9] = 0x03;
    assert_eq!(read_varint_u64(&bytes), (Ok(Some(1 << 63)), 10));
}

#[test]
fn varint_no_proper_prefix() {
    for value in [128u64, 20_000, u64::MAX] {
        let bytes = written(value);
        for n in 1..bytes.len() {
            assert!(read_varint_u64(&bytes[..n]).0.is_err());
        }
    }
}

#[test]
fn varint_reader_by_bytes() {
    let mut reader = VarintReader::new();
    assert!(matches!(reader.on_byte(Ok(0xac)), VarintStep::ReadByte));
    assert!(matches!(reader.on_byte(Ok(0x02)), VarintStep::Done(Ok(Some(300)))));
    let mut reader = VarintReader::new();
    let eof = IoError::of_kind(ErrorKind::UnexpectedEof);
    assert!(matches!(reader.on_byte(Err(eof)), VarintStep::Done(Ok(None))));
    let mut reader = VarintReader::new();
    let reset = IoError::of_kind(ErrorKind::ConnectionReset);
    assert!(matches!(
        reader.on_byte(Err(reset)),
        VarintStep::Done(Err(IoError { kind: ErrorKind::ConnectionReset, cause: IoCause::Kind }))
    ));
}
