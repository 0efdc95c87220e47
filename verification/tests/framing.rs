use irpc::error::ErrorKind;
use irpc::util::framing::{
    length_prefix, read_exact, read_length_prefixed, write_length_prefixed, OnSize,
};

fn frame(payload: &[u8]) -> Vec<u8> {
    let mut buf: Vec<u8> = Vec::new();
    write_length_prefixed(&mut buf, Ok(payload)).unwrap();
    buf
}

#[test]
fn frame_exact_bytes() {
    assert_eq!(frame(&[]), vec![0]);
    assert_eq!(frame(&[7, 8, 9]), vec![3, 7, 8, 9]);
    let long = frame(&[1; 200]);
    assert_eq!(&long[..2], &[0xc8, 0x01]);
    assert_eq!(long.len(), 202);
}

#[test]
fn frame_round_trip() {
    for n in [0usize, 1, 127, 128, 5000] {
        let payload: Vec<u8> = (0..n).map(|i| i as u8).collect();
        let mut bytes = frame(&payload);
        bytes.push(99);
        let (read, taken) = read_length_prefixed(&bytes, n);
        assert_eq!(read, Ok(payload));
        assert_eq!(bytes[taken..], [99]);
    }
}

#[test]
fn frame_errors() {
    let e = read_length_prefixed(&[], 10).0.unwrap_err();
    assert_eq!((e.kind(), e.text().as_str()), (ErrorKind::UnexpectedEof, "EOF reached"));
    let e = read_length_prefixed(&frame(&[1; 11]), 10).0.unwrap_err();
    assert_eq!(
        (e.kind(), e.text().as_str()),
        (ErrorKind::InvalidData, "Length-prefixed value too large")
    );
    let (read, taken) = read_length_prefixed(&[3, 1, 2], 10);
    let e = read.unwrap_err();
    assert_eq!(taken, 1);
    assert_eq!(e.kind(), ErrorKind::UnexpectedEof);
    let mut buf: Vec<u8> = vec![1];
    let e = write_length_prefixed(&mut buf, Err("no".to_string())).unwrap_err();
    assert_eq!((e.kind(), e.text().as_str()), (ErrorKind::InvalidData, "no"));
    assert_eq!(buf, vec![1]);
}

#[test]
fn frame_limit_is_inclusive() {
    assert!(matches!(length_prefix(Ok(Some(10)), 10), OnSize::Read(10)));
    assert!(matches!(length_prefix(Ok(Some(11)), 10), OnSize::Fail(_)));
}

#[test]
fn read_exact_takes_the_start() {
    assert_eq!(read_exact(&[1, 2, 3], 2), Ok(vec![1, 2]));
    assert!(read_exact(&[1, 2, 3], 4).is_err());
}
