use irpc::channel::mpsc::RecvError;
use irpc::channel::SendError;
use irpc::error::ErrorKind;
use irpc::rpc::{Error, RequestError};
use irpc::util::stream_item::{
    forward_iter, forward_next, forward_sent, try_collect, Item, Need, State, StreamError, StreamItem,
};

type I = Item<u32, String>;

fn arrive(items: Vec<I>) -> Vec<Result<Option<I>, RecvError>> {
    items.into_iter().map(|i| Ok(Some(i))).collect()
}

#[test]
fn items_convert() {
    assert_eq!(I::from_result(Ok(1)).into_result_opt(), Some(Ok(1)));
    assert_eq!(I::from_result(Err("e".to_string())).into_result_opt(), Some(Err("e".to_string())));
    assert_eq!(I::done().into_result_opt(), None);
}

#[test]
fn forwarded_items_are_collected() {
    let sent = forward_iter::<I>(vec![Ok(1), Ok(2), Ok(3)]);
    assert_eq!(sent.len(), 4);
    assert_eq!(try_collect(Ok(()), arrive(sent)).unwrap(), vec![1, 2, 3]);
    let sent = forward_iter::<I>(vec![]);
    assert_eq!(try_collect(Ok(()), arrive(sent)).unwrap(), Vec::<u32>::new());
}

#[test]
fn an_error_ends_the_stream() {
    let sent = forward_iter::<I>(vec![Ok(1), Err("stop".to_string()), Ok(3)]);
    assert_eq!(sent.len(), 2);
    match try_collect(Ok(()), arrive(sent)) {
        Err(StreamError::Remote(e)) => assert_eq!(e, "stop"),
        _ => panic!("no error"),
    }
}

#[test]
fn a_missing_marker_is_an_error() {
    let received = vec![Ok(Some(I::Value(1))), Ok(None)];
    match try_collect(Ok(()), received) {
        Err(StreamError::Transport(Error::MpscRecv { source: RecvError::Io { source } })) => {
            assert_eq!(source.kind(), ErrorKind::UnexpectedEof);
            assert_eq!(source.text(), "unexpected end of stream");
        }
        _ => panic!("no error"),
    }
}

#[test]
fn transport_errors_end_the_stream() {
    match try_collect::<I>(Ok(()), vec![Err(RecvError::MaxMessageSizeExceeded)]) {
        Err(StreamError::Transport(Error::MpscRecv { source })) => {
            assert_eq!(source, RecvError::MaxMessageSizeExceeded)
        }
        _ => panic!("no error"),
    }
    let refused = RequestError::Other { message: "x".to_string() };
    match try_collect::<I>(Err(Error::Request { source: refused.clone() }), vec![]) {
        Err(StreamError::Transport(Error::Request { source })) => assert_eq!(source, refused),
        _ => panic!("no error"),
    }
}

#[test]
fn stream_states() {
    let mut state = State::Init;
    assert_eq!(state.need(), Need::Open);
    assert!(state.on_open::<I>(Ok(())).is_none());
    assert_eq!(state.need(), Need::Receive);
    assert!(matches!(state.on_received(Ok(Some(I::Value(4)))), Some(Ok(4))));
    assert_eq!(state.need(), Need::Receive);
    assert!(state.on_received(Ok(Some(I::Done))).is_none());
    assert_eq!(state.need(), Need::Nothing);
}

#[test]
fn forwarding_steps() {
    let (item, last): (I, bool) = forward_next(Some(Ok(1)));
    assert!(matches!(item, Item::Value(1)) && !last);
    let (item, last): (I, bool) = forward_next(Some(Err("e".to_string())));
    assert!(matches!(item, Item::Failure(_)) && last);
    let (item, last): (I, bool) = forward_next(None);
    assert!(matches!(item, Item::Done) && last);
    assert_eq!(forward_sent(Ok(()), false), None);
    assert_eq!(forward_sent(Ok(()), true), Some(Ok(())));
    assert_eq!(
        forward_sent(Err(SendError::ReceiverClosed), false),
        Some(Err(SendError::ReceiverClosed))
    );
}
