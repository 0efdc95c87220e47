use irpc::channel::{mpsc, oneshot, SendError};
use irpc::channel::none::{NoReceiver, NoSender};
use irpc::client::call::{on_local_sent, on_response, run_call, Answers, CallKind, CallStep, RemoteCall};
use irpc::error::{ConnectionError, StreamWriteError};
use irpc::rpc::send::prepare_payload;
use irpc::rpc::{Error, RequestError, WriteError};
use irpc::{Channels, Client, LocalSender, Request, Service, WithChannels};

struct Echo;

impl Service for Echo {
    type Message = u32;
}

struct Ping;

impl Channels<Echo> for Ping {
    type Tx = NoSender;
    type Rx = NoReceiver;
}

#[test]
fn local_clients() {
    let (tx, mut rx) = tokio::sync::mpsc::channel::<u32>(4);
    let client: Client<Echo, ()> = Client::local(tx);
    let local = client.as_local().unwrap();
    let LocalSender(mpsc::Sender::Tokio(tx)) = local else {
        panic!("not local")
    };
    assert_eq!(mpsc::try_send_local(&tx, 5), Ok(true));
    assert_eq!(rx.try_recv(), Ok(5));
    assert!(matches!(client.request(), Request::Local(_)));
    assert!(client.clone().as_local().is_some());
}

#[test]
fn remote_clients() {
    let client: Client<Echo, &str> = Client::boxed("connection");
    assert!(client.as_local().is_none());
    assert!(matches!(client.request(), Request::Remote(c) if *c == "connection"));
}

#[test]
fn messages_carry_their_channels() {
    let msg: WithChannels<Ping, Echo> = WithChannels::without_channels(Ping);
    assert_eq!(msg.tx, NoSender);
    assert_eq!(msg.rx, NoReceiver);
    assert!(msg.parent_span_opt().is_some());
    let Ping = msg.deref();
    let msg: WithChannels<Ping, Echo> = WithChannels::new(Ping, NoSender, NoReceiver);
    assert_eq!(msg.tx, NoSender);
    let msg: WithChannels<Ping, Echo> = WithChannels::from((Ping,));
    assert_eq!((msg.tx, msg.rx), (NoSender, NoReceiver));
    let msg: WithChannels<Ping, Echo> = WithChannels::from((Ping, NoSender));
    assert_eq!((msg.tx, msg.rx), (NoSender, NoReceiver));
    let msg: WithChannels<Ping, Echo> = WithChannels::from((Ping, NoSender, NoReceiver));
    assert_eq!((msg.tx, msg.rx), (NoSender, NoReceiver));
    let span_propagation: bool = <Echo as Service>::SPAN_PROPAGATION;
    assert!(!span_propagation);
}

fn answers() -> Answers<char> {
    Answers {
        opened: Ok('a'),
        prepared: prepare_payload(Ok(vec![1, 2, 3])),
        written: Ok(()),
        rejected: false,
        reopened: Ok('b'),
        rewritten: Ok(()),
    }
}

#[test]
fn calls_write_once() {
    for kind in [
        CallKind::Notify,
        CallKind::Rpc,
        CallKind::ServerStreaming,
        CallKind::ClientStreaming,
        CallKind::BidiStreaming,
    ] {
        assert_eq!(run_call(kind, answers()), (Ok('a'), 1));
    }
}

#[test]
fn rejected_calls_write_twice() {
    for kind in [CallKind::Notify, CallKind::Rpc, CallKind::ServerStreaming] {
        assert_eq!(run_call(kind, Answers { rejected: true, ..answers() }), (Ok('b'), 2));
    }
    for kind in [CallKind::ClientStreaming, CallKind::BidiStreaming] {
        assert_eq!(run_call(kind, Answers { rejected: true, ..answers() }), (Ok('a'), 1));
    }
}

#[test]
fn the_same_frame_is_written_again() {
    let mut call: RemoteCall<char> = RemoteCall::new(CallKind::Rpc);
    assert!(matches!(call.on_open(Ok('a')), CallStep::Prepare));
    assert!(matches!(call.on_prepared(prepare_payload(Ok(vec![9]))), CallStep::Write('a')));
    let first = call.frame.as_ref().unwrap().as_slice().to_vec();
    assert_eq!(first, vec![1, 9]);
    assert!(matches!(call.on_written('a', Ok(())), CallStep::AskZeroRtt));
    assert!(matches!(call.on_zero_rtt(true), CallStep::Open));
    assert!(matches!(call.on_open(Ok('b')), CallStep::Write('b')));
    assert_eq!(call.frame.as_ref().unwrap().as_slice(), first.as_slice());
    assert!(matches!(call.on_written('b', Ok(())), CallStep::Done('b')));
}

#[test]
fn call_errors() {
    let refused = RequestError::Connect { message: "refused".to_string() };
    assert_eq!(
        run_call(CallKind::Rpc, Answers { opened: Err(refused.clone()), ..answers() }),
        (Err(Error::Request { source: refused }), 0)
    );
    assert_eq!(
        run_call(
            CallKind::Rpc,
            Answers { prepared: Err(WriteError::MaxMessageSizeExceeded), ..answers() }
        ),
        (Err(Error::Write { source: WriteError::MaxMessageSizeExceeded }), 0)
    );
    let closed = StreamWriteError::ClosedStream;
    assert_eq!(
        run_call(CallKind::Notify, Answers { written: Err(closed.clone()), ..answers() }),
        (Err(Error::Write { source: WriteError::Noq { source: closed } }), 1)
    );
    let lost = RequestError::Connection { source: ConnectionError::TimedOut };
    assert_eq!(
        run_call(
            CallKind::Notify,
            Answers { rejected: true, reopened: Err(lost.clone()), ..answers() }
        ),
        (Err(Error::Request { source: lost }), 1)
    );
    assert_eq!(
        on_local_sent(Err(SendError::ReceiverClosed)),
        Err(Error::Send { source: SendError::ReceiverClosed })
    );
    assert_eq!(on_local_sent(Ok(())), Ok(()));
    assert_eq!(
        on_response::<u8>(Err(oneshot::RecvError::SenderClosed)),
        Err(Error::OneshotRecv { source: oneshot::RecvError::SenderClosed })
    );
    assert_eq!(on_response(Ok(5)), Ok(5));
}
