use irpc::channel::{mpsc, oneshot, SendError};
use irpc::error::{ConnectionError, ErrorKind, IoError, StreamWriteError};
use irpc::rpc::connection::{run_open_bi, Attempts, NoqLazyRemoteConnection};
use irpc::rpc::receive::{
    mpsc_body, mpsc_message, mpsc_receive, mpsc_size, oneshot_message, oneshot_receive, oneshot_size,
};
use irpc::rpc::send::{
    oneshot_frame, prepare_payload, prepare_write, run_attempt, run_use, NoqSenderInner,
    NoqSenderState, Outcome, TryStep,
};
use irpc::rpc::server::{
    accepted, on_handled, on_request, read_request_raw, request_message, ConnectionStep, Listen,
    ListenEvent, ListenStep, OnAccept, Parsed, RequestRead, REQUEST_TOO_LARGE,
};
use irpc::rpc::{
    invalid_postcard, Error, RequestError, WriteError, ERROR_CODE_INVALID_POSTCARD,
    ERROR_CODE_MAX_MESSAGE_SIZE_EXCEEDED, ERROR_CODE_REQUEST_LIMITED, MAX_MESSAGE_SIZE,
};
use irpc::util::framing::OnSize;

/// A number that only has a serialized form if it is even.
struct NoSer(u64);

impl serde::Serialize for NoSer {
    fn serialize<S: serde::Serializer>(&self, serializer: S) -> Result<S::Ok, S::Error> {
        if self.0 % 2 == 1 {
            Err(serde::ser::Error::custom("Cannot serialize odd number"))
        } else {
            serializer.serialize_u64(self.0)
        }
    }
}

impl<'de> serde::Deserialize<'de> for NoSer {
    fn deserialize<D: serde::Deserializer<'de>>(deserializer: D) -> Result<Self, D::Error> {
        let value = u64::deserialize(deserializer)?;
        if value % 2 != 0 {
            Err(serde::de::Error::custom("Cannot deserialize odd number"))
        } else {
            Ok(NoSer(value))
        }
    }
}

fn size<T: serde::Serialize>(value: &T) -> Result<usize, String> {
    postcard::experimental::serialized_size(value).map_err(|e| e.to_string())
}

fn payload<T: serde::Serialize>(value: &T) -> Result<Vec<u8>, String> {
    postcard::to_allocvec(value).map_err(|e| e.to_string())
}

fn parse<T: serde::de::DeserializeOwned>(bytes: &[u8]) -> Result<T, String> {
    postcard::from_bytes(bytes).map_err(|e| e.to_string())
}

#[test]
fn oneshot_max_message_size_send() {
    let value = vec![0u8; 1024 * 1024 * 32];
    let refusal = oneshot_frame(size(&value), || payload(&value)).unwrap_err();
    assert!(matches!(refusal.error, SendError::MaxMessageSizeExceeded));
    assert_eq!(refusal.code, ERROR_CODE_MAX_MESSAGE_SIZE_EXCEEDED);
}

#[test]
fn oneshot_max_message_size_recv() {
    let value = payload(&vec![0u8; 1024 * 1024 * 32]).unwrap();
    let mut bytes: Vec<u8> = Vec::new();
    irpc::util::framing::write_length_prefixed(&mut bytes, Ok(&value)).unwrap();
    let cause = oneshot_receive(&bytes).unwrap_err();
    assert!(matches!(cause, oneshot::RecvError::MaxMessageSizeExceeded));
    assert!(matches!(
        mpsc_receive(&bytes).0.unwrap_err(),
        mpsc::RecvError::MaxMessageSizeExceeded
    ));
    assert!(matches!(
        oneshot_size(Ok(Some(MAX_MESSAGE_SIZE + 1))),
        OnSize::Refuse { code: ERROR_CODE_MAX_MESSAGE_SIZE_EXCEEDED, .. }
    ));
}

#[test]
fn oneshot_serialize_error_send() {
    let value = NoSer(1);
    let refusal = oneshot_frame(size(&value), || payload(&value)).unwrap_err();
    assert!(matches!(refusal.error, SendError::Io { source } if source.kind() == ErrorKind::InvalidData));
    assert_eq!(refusal.code, ERROR_CODE_INVALID_POSTCARD);
}

#[test]
fn oneshot_serialize_error_recv() {
    let frame = oneshot_frame(size(&1u64), || payload(&1u64)).unwrap();
    let body = oneshot_receive(frame.as_slice()).unwrap();
    let cause = oneshot_message(parse::<NoSer>(&body)).err().unwrap();
    assert!(matches!(cause, oneshot::RecvError::Io { source } if source.kind() == ErrorKind::InvalidData));
    let frame = oneshot_frame(size(&2u64), || payload(&2u64)).unwrap();
    let body = oneshot_receive(frame.as_slice()).unwrap();
    assert_eq!(oneshot_message(parse::<NoSer>(&body)).unwrap().0, 2);
}

#[test]
fn oneshot_receives_the_only_message() {
    let frame = oneshot_frame(size(&vec![1u8, 2, 3]), || payload(&vec![1u8, 2, 3])).unwrap();
    let bytes = frame.as_slice().to_vec();
    assert_eq!(oneshot_receive(&bytes), Ok(vec![3, 1, 2, 3]));
    let mut long = bytes.clone();
    long.push(0);
    let e = oneshot_receive(&long).unwrap_err();
    assert!(matches!(e, oneshot::RecvError::Io { source } if source.kind() == ErrorKind::InvalidData));
    let e = oneshot_receive(&[]).unwrap_err();
    assert!(matches!(e, oneshot::RecvError::Io { source } if source.kind() == ErrorKind::UnexpectedEof
        && source.text() == "failed to read size"));
}

#[test]
fn messages_arrive_in_order() {
    let messages: Vec<String> = (0..20).map(|i| format!("message {}", "x".repeat(i * 37))).collect();
    let mut sender = NoqSenderInner::new();
    let mut wire: Vec<u8> = Vec::new();
    for m in &messages {
        sender.send(size(m), || payload(m)).unwrap();
        wire.extend_from_slice(sender.buffer.as_slice());
        sender.sent(Ok(())).unwrap();
        assert!(sender.buffer.as_slice().is_empty());
    }
    let mut rest = wire.as_slice();
    let mut received: Vec<String> = Vec::new();
    loop {
        let (r, n) = mpsc_receive(rest);
        match r.unwrap() {
            Some(body) => received.push(parse(&body).unwrap()),
            None => break,
        }
        rest = &rest[n..];
    }
    assert_eq!(received, messages);
}

#[test]
fn cut_messages_are_errors() {
    let mut sender = NoqSenderInner::new();
    sender.send(size(&"hello"), || payload(&"hello")).unwrap();
    let wire = sender.buffer.as_slice().to_vec();
    assert_eq!(wire, vec![6, 5, b'h', b'e', b'l', b'l', b'o']);
    for n in 1..wire.len() {
        let e = mpsc_receive(&wire[..n]).0.unwrap_err();
        assert!(matches!(e, mpsc::RecvError::Io { source } if source.kind() == ErrorKind::UnexpectedEof));
    }
    assert_eq!(mpsc_receive(&[]).0, Ok(None));
}

#[test]
fn receive_steps() {
    assert!(matches!(mpsc_size(Ok(None)), OnSize::End));
    assert!(matches!(mpsc_size(Ok(Some(MAX_MESSAGE_SIZE))), OnSize::Read(0x100_0000)));
    assert!(matches!(mpsc_size(Ok(Some(MAX_MESSAGE_SIZE + 1))), OnSize::Refuse { code: 1, .. }));
    let reset = IoError::of_kind(ErrorKind::ConnectionReset);
    assert!(matches!(
        mpsc_body(Err(reset)),
        Err(mpsc::RecvError::Io { source }) if source.kind() == ErrorKind::UnexpectedEof
    ));
    assert!(matches!(
        mpsc_message::<u8>(Err("bad".to_string())),
        Err(mpsc::RecvError::Io { source }) if source.kind() == ErrorKind::InvalidData && source.text() == "bad"
    ));
    assert_eq!(mpsc_message(Ok(5u8)), Ok(Some(5)));
}

#[test]
fn mpsc_sender_clone_closed_error() {
    let mut state = NoqSenderState::Open(NoqSenderInner::new());
    // The first messages go out.
    for _ in 0..3 {
        let mut inner = state.begin().unwrap();
        inner.send(size(&vec![1u8, 2, 3]), || payload(&vec![1u8, 2, 3])).unwrap();
        let res = inner.sent(Ok(()));
        state.finish(inner, &res);
    }
    // The remote side stops the stream with code one.
    let mut inner = state.begin().unwrap();
    inner.send(size(&vec![1u8, 2, 3]), || payload(&vec![1u8, 2, 3])).unwrap();
    assert_eq!(StreamWriteError::Stopped { code: 42 }.text(), "sending stopped by peer: error 42");
    let res = inner.sent(Err(StreamWriteError::Stopped { code: 1 }));
    assert!(matches!(res, Err(SendError::MaxMessageSizeExceeded)));
    state.finish(inner, &res);
    for _ in 0..3 {
        match state.begin() {
            Err(SendError::Io { source }) if source.kind() == ErrorKind::BrokenPipe => {}
            e => panic!("Expected SendError::Io with kind BrokenPipe, got {:?}", e),
        }
    }
}

#[test]
fn mpsc_sender_clone_drop_error() {
    let mut state = NoqSenderState::Open(NoqSenderInner::new());
    {
        // A send that is dropped before it completes.
        let _inner = state.begin().unwrap();
    }
    match state.begin() {
        Err(SendError::Io { source }) if source.kind() == ErrorKind::BrokenPipe => {}
        e => panic!("Expected SendError::Io with kind BrokenPipe, got {:?}", e),
    }
    assert!(matches!(NoqSenderState::default(), NoqSenderState::Closed));
}

#[test]
fn try_send_steps() {
    let mut inner = NoqSenderInner::new();
    inner.try_send(size(&7u8), || payload(&7u8)).unwrap();
    assert_eq!(inner.buffer.as_slice(), &[1, 7]);
    assert_eq!(inner.tried(None), TryStep::NotSent);
    assert_eq!(inner.tried(Some(Ok(1))), TryStep::WriteRest(1));
    assert!(matches!(
        inner.tried(Some(Err(StreamWriteError::ClosedStream))),
        TryStep::Fail(SendError::Io { source }) if source.kind() == ErrorKind::NotConnected
    ));
    assert_eq!(inner.rest_sent(Ok(())), Ok(true));
    let big = vec![0u8; 1024 * 1024 * 17];
    assert_eq!(
        inner.try_send(size(&big), || payload(&big)),
        Err(SendError::MaxMessageSizeExceeded)
    );
}

#[test]
fn attempts_are_all_or_nothing() {
    let mut inner = NoqSenderInner::new();
    inner.try_send(size(&"hello"), || payload(&"hello")).unwrap();
    let frame = inner.buffer.as_slice().to_vec();
    let mut wire = frame[..3].to_vec();
    wire.extend_from_slice(inner.rest(3));
    assert_eq!(wire, frame);
    assert_eq!(run_attempt(&mut inner, None, Ok(())), Ok(false));
    let lost = StreamWriteError::ConnectionLost { source: ConnectionError::Reset };
    assert!(run_attempt(&mut inner, Some(Ok(3)), Err(lost)).is_err());
    assert_eq!(run_attempt(&mut inner, Some(Ok(3)), Ok(())), Ok(true));
}

#[test]
fn cut_streams_give_a_prefix() {
    let messages: Vec<String> = (0..5).map(|i| "y".repeat(i * 60)).collect();
    let mut wire: Vec<u8> = Vec::new();
    for m in &messages {
        wire.extend_from_slice(oneshot_frame(size(m), || payload(m)).unwrap().as_slice());
    }
    for n in 0..=wire.len() {
        let mut rest = &wire[..n];
        let mut received: Vec<String> = Vec::new();
        while let (Ok(Some(body)), taken) = mpsc_receive(rest) {
            received.push(parse(&body).unwrap());
            rest = &rest[taken..];
        }
        assert_eq!(received[..], messages[..received.len()]);
    }
}

#[test]
fn requests_round_trip() {
    let frame = prepare_write(size(&"request"), || payload(&"request")).unwrap();
    let mut bytes = frame.as_slice().to_vec();
    bytes.extend([1, 2, 3]);
    match read_request_raw(&bytes) {
        RequestRead::Body(body) => assert_eq!(parse::<String>(&body).unwrap(), "request"),
        other => panic!("{:?}", other),
    }
    assert!(matches!(
        read_request_raw(&[]),
        RequestRead::Fail(e) if e.kind() == ErrorKind::UnexpectedEof && e.text() == "failed to read size"
    ));
    assert!(matches!(
        read_request_raw(&[0x81, 0x80, 0x80, 0x08]),
        RequestRead::Refuse { code: 1, error } if error.kind() == ErrorKind::InvalidData
    ));
    assert_eq!(REQUEST_TOO_LARGE, "request exceeded max message size");
    assert_eq!(ERROR_CODE_REQUEST_LIMITED, 3);
}

#[test]
fn prepare_write_errors() {
    let big = vec![0u8; 1024 * 1024 * 16];
    assert!(matches!(
        prepare_write(size(&big), || panic!("serialized")),
        Err(WriteError::MaxMessageSizeExceeded)
    ));
    assert!(matches!(
        prepare_write(Err("size".to_string()), || panic!("serialized")),
        Err(WriteError::Io { source }) if source.kind() == ErrorKind::InvalidData
    ));
    assert!(matches!(
        prepare_payload(Err("payload".to_string())),
        Err(WriteError::Io { source }) if source.text() == "payload"
    ));
}

#[test]
fn request_with_span_context() {
    let plain: Parsed<u8, String> = Parsed::Plain(Ok(3));
    assert_eq!(request_message(plain), Ok((3, None)));
    let span: Parsed<u8, String> = Parsed::WithSpan(Ok((Some("ctx".to_string()), 3)));
    assert_eq!(request_message(span), Ok((3, Some("ctx".to_string()))));
    let bad: Parsed<u8, String> = Parsed::WithSpan(Err("bad".to_string()));
    assert_eq!(request_message(bad).unwrap_err().kind(), ErrorKind::InvalidData);
}

#[test]
fn connections_end_in_order() {
    assert!(matches!(accepted(Ok(1)), OnAccept::Read(1)));
    assert!(matches!(
        accepted::<u8>(Err(ConnectionError::ApplicationClosed { code: 0, message: "closed by peer: 0".to_string() })),
        OnAccept::Closed
    ));
    assert!(matches!(
        accepted::<u8>(Err(ConnectionError::ApplicationClosed { code: 1, message: "closed by peer: 1".to_string() })),
        OnAccept::Fail(e) if e.kind() == ErrorKind::ConnectionAborted && e.text() == "closed by peer: 1"
    ));
    assert!(matches!(
        accepted::<u8>(Err(ConnectionError::TimedOut)),
        OnAccept::Fail(e) if e.kind() == ErrorKind::TimedOut
    ));
    assert!(matches!(on_request(Ok(Some(4))), ConnectionStep::Handle(4)));
    assert!(matches!(on_request::<u8>(Ok(None)), ConnectionStep::Return(Ok(()))));
    assert!(matches!(on_handled::<u8>(Ok(())), ConnectionStep::ReadNext));
    assert!(matches!(
        on_handled::<u8>(Err(SendError::ReceiverClosed)),
        ConnectionStep::Return(Err(e)) if e.kind() == ErrorKind::BrokenPipe
    ));
}

#[test]
fn listen_numbers_connections() {
    let mut listen = Listen::new();
    assert_eq!(listen.next_id(), 0);
    assert!(matches!(
        listen.on_event(ListenEvent::Incoming(Some('a'))),
        ListenStep::Spawn { id: 0, incoming: 'a' }
    ));
    assert!(matches!(listen.on_event::<char>(ListenEvent::TaskEnded), ListenStep::Wait));
    assert!(matches!(
        listen.on_event(ListenEvent::Incoming(Some('b'))),
        ListenStep::Spawn { id: 1, incoming: 'b' }
    ));
    assert!(matches!(listen.on_event::<char>(ListenEvent::Incoming(None)), ListenStep::Stop));
}

#[test]
fn lazy_connection_reconnects_once() {
    let lost = ConnectionError::Reset;
    let mut lazy: NoqLazyRemoteConnection<u8> = NoqLazyRemoteConnection::new();
    let r = run_open_bi(&mut lazy, Attempts { kept: Err(lost.clone()), connected: Ok(1), opened: Ok('a') });
    assert_eq!(r, (Ok('a'), 1));
    assert_eq!(lazy.kept(), Some(&1));
    let r = run_open_bi(&mut lazy, Attempts { kept: Ok('b'), connected: Ok(2), opened: Ok('c') });
    assert_eq!(r, (Ok('b'), 0));
    assert_eq!(lazy.kept(), Some(&1));
    let r = run_open_bi(&mut lazy, Attempts { kept: Err(lost.clone()), connected: Ok(2), opened: Ok('c') });
    assert_eq!(r, (Ok('c'), 1));
    assert_eq!(lazy.kept(), Some(&2));
    let r = run_open_bi(&mut lazy, Attempts { kept: Err(lost.clone()), connected: Ok(3), opened: Err::<char, _>(lost.clone()) });
    assert_eq!(r, (Err(RequestError::Connection { source: lost }), 1));
    assert_eq!(lazy.kept(), None);
}

#[test]
fn cancelled_use_closes_the_sender_for_good() {
    let mut state = NoqSenderState::Open(NoqSenderInner::new());
    run_use(&mut state, Outcome::Succeeded(NoqSenderInner::new()));
    assert!(matches!(state, NoqSenderState::Open(_)));
    run_use(&mut state, Outcome::Cancelled);
    assert!(matches!(state, NoqSenderState::Closed));
    run_use(&mut state, Outcome::Succeeded(NoqSenderInner::new()));
    assert!(matches!(state, NoqSenderState::Closed));
    let mut failing = NoqSenderState::Open(NoqSenderInner::new());
    run_use(&mut failing, Outcome::Failed(SendError::ReceiverClosed));
    assert!(matches!(failing, NoqSenderState::Closed));
}

#[test]
fn errors_become_io_errors() {
    let io = |e: Error| IoError::from(e).kind();
    assert_eq!(io(Error::from(SendError::ReceiverClosed)), ErrorKind::BrokenPipe);
    assert_eq!(io(Error::from(SendError::MaxMessageSizeExceeded)), ErrorKind::InvalidData);
    assert_eq!(io(Error::from(mpsc::RecvError::MaxMessageSizeExceeded)), ErrorKind::InvalidData);
    assert_eq!(io(Error::from(oneshot::RecvError::SenderClosed)), ErrorKind::BrokenPipe);
    assert_eq!(io(Error::from(WriteError::MaxMessageSizeExceeded)), ErrorKind::InvalidData);
    assert_eq!(
        io(Error::from(WriteError::Noq { source: StreamWriteError::ZeroRttRejected })),
        ErrorKind::ConnectionReset
    );
    assert_eq!(
        io(Error::from(RequestError::Connect { message: "x".to_string() })),
        ErrorKind::Other
    );
    assert_eq!(
        io(Error::from(RequestError::Connection { source: ConnectionError::Reset })),
        ErrorKind::ConnectionReset
    );
    assert_eq!(
        io(Error::from(invalid_postcard("no".to_string()))),
        ErrorKind::InvalidData
    );
    assert_eq!(Error::from(SendError::ReceiverClosed).text(), "Send error");
    assert_eq!(SendError::ReceiverClosed.text(), "Receiver closed");
    assert_eq!(IoError::from(SendError::ReceiverClosed).text(), "Receiver closed");
}
