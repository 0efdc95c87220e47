use irpc::channel::mpsc::{self, try_send_local, try_sent, Passed, RecvStep};
use irpc::channel::tokio_types::TrySent;
use irpc::channel::{oneshot, SendError};

type Pair<T> = (mpsc::Sender<T>, mpsc::Receiver<T>);

fn block_on<F: std::future::Future>(f: F) -> F::Output {
    tokio::runtime::Builder::new_current_thread().build().unwrap().block_on(f)
}

#[test]
fn test_map_filter() {
    let (tx, rx): Pair<u64> = mpsc::channel(100);
    let local = match &tx {
        mpsc::Sender::Tokio(tx) => tx.clone(),
        mpsc::Sender::Boxed(_) => panic!("not local"),
    };
    // *2, filter multipes of 4, *3 if multiple of 8
    //
    // the transforms are applied in reverse order!
    let tx = tx
        .with_filter_map(|x: u64| if x % 8 == 0 { Some(x * 3) } else { None })
        .with_filter(|x| x % 4 == 0)
        .with_map(|x: u64| x * 2);
    assert!(!tx.is_rpc());
    for i in 0..100 {
        match tx.pass(i) {
            Some(Passed::Boxed(Passed::Boxed(Passed::Boxed(Passed::Tokio(v))))) => {
                assert_eq!(try_send_local(&local, v), Ok(true));
            }
            Some(_) => panic!("wrong bottom"),
            None => {}
        }
    }
    drop(tx);
    drop(local);
    let mut below = rx.into_tokio().ok().unwrap();
    let (_unused_tx, shape): Pair<u64> = mpsc::channel(1);
    // /24, filter multiples of 3, /2 if even
    let rx = shape
        .map(|x: u64| x / 24)
        .filter(|x| x % 3 == 0)
        .filter_map(|x: u64| if x % 2 == 0 { Some(x / 2) } else { None });
    let mut res = vec![];
    while let Some(x) = block_on(below.recv()) {
        if let Some(x) =
            rx.deliver(Passed::Boxed(Passed::Boxed(Passed::Boxed(Passed::Tokio(x)))))
        {
            res.push(x);
        }
    }
    assert_eq!(res, vec![0, 3, 6, 9, 12]);
}

#[test]
fn outer_transform_comes_first() {
    let (tx, _rx): Pair<u64> = mpsc::channel(1);
    let tx = tx.with_map(|x: u64| x + 1).with_map(|x: u64| x * 10);
    match tx.pass(4) {
        Some(Passed::Boxed(Passed::Boxed(Passed::Tokio(v)))) => assert_eq!(v, 41),
        _ => panic!("dropped"),
    }
}

#[test]
fn try_send_on_a_local_channel() {
    let (tx, rx): Pair<u8> = mpsc::channel(1);
    let tx = tx.into_tokio().ok().unwrap();
    assert_eq!(try_send_local(&tx, 1), Ok(true));
    assert_eq!(try_send_local(&tx, 2), Ok(false));
    let mut below = rx.into_tokio().ok().unwrap();
    assert_eq!(block_on(below.recv()), Some(1));
    assert_eq!(try_send_local(&tx, 3), Ok(true));
    drop(below);
    assert_eq!(try_send_local(&tx, 4), Err(SendError::ReceiverClosed));
    assert_eq!(try_sent(TrySent::Full), Ok(false));
}

#[test]
fn dropped_messages_count_as_sent() {
    let (tx, _rx): Pair<u8> = mpsc::channel(1);
    let tx = tx.with_filter(|x| *x > 10);
    let dropped = tx.pass(3);
    assert_eq!(mpsc::filtered_send(&dropped), Some(Ok(())));
    assert_eq!(mpsc::filtered_try_send(&dropped), Some(Ok(true)));
    let passed = tx.pass(11);
    assert_eq!(mpsc::filtered_send(&passed), None);
    assert_eq!(mpsc::filtered_try_send(&passed), None);
}

#[test]
fn remote_senders_are_rpc() {
    let tx: mpsc::Sender<u8> = mpsc::Sender::Boxed(std::sync::Arc::new(mpsc::RemoteSink { stream: () }));
    assert!(tx.is_rpc());
    assert!(tx.clone().with_map(|x: u8| x).is_rpc());
    assert!(tx.into_tokio().is_err());
}

#[test]
fn filtering_receiver_passes_over_messages() {
    let (_tx, rx): Pair<u64> = mpsc::channel(1);
    let rx = match rx.filter_map(|x: u64| if x > 2 { Some(x * 2) } else { None }) {
        mpsc::Receiver::Boxed(inner) => inner,
        mpsc::Receiver::Tokio(_) => panic!("not boxed"),
    };
    assert!(matches!(rx.on_recv(Ok(Some(1))), RecvStep::Again));
    assert!(matches!(rx.on_recv(Ok(Some(3))), RecvStep::Return(Ok(Some(6)))));
    assert!(matches!(rx.on_recv(Ok(None)), RecvStep::Return(Ok(None))));
    assert!(matches!(
        rx.on_recv(Err(mpsc::RecvError::MaxMessageSizeExceeded)),
        RecvStep::Return(Err(mpsc::RecvError::MaxMessageSizeExceeded))
    ));
    assert_eq!(rx.recv_from(vec![1, 3, 2, 4]), vec![6, 8]);
}

type Oneshot<T> = oneshot::Sender<T, oneshot::RemoteSink<()>>;

#[test]
fn oneshot_local() {
    let (tx, rx): (Oneshot<u8>, oneshot::Receiver<u8, ()>) = oneshot::channel();
    assert!(!tx.is_rpc());
    match tx.pass(7) {
        Some(oneshot::Passed::Tokio(tx, v)) => assert_eq!(oneshot::send_local(tx, v), Ok(())),
        _ => panic!("dropped"),
    }
    let rx = rx.into_tokio().ok().unwrap();
    assert_eq!(oneshot::local_received(block_on(rx)), Ok(7));
}

#[test]
fn oneshot_closed() {
    let (tx, rx): (Oneshot<u8>, oneshot::Receiver<u8, ()>) = oneshot::channel();
    drop(rx);
    let tx = tx.into_tokio().ok().unwrap();
    assert_eq!(oneshot::send_local(tx, 1), Err(SendError::ReceiverClosed));
    let (tx, rx): (Oneshot<u8>, oneshot::Receiver<u8, ()>) = oneshot::channel();
    drop(tx);
    let rx = rx.into_tokio().ok().unwrap();
    assert_eq!(
        oneshot::local_received(block_on(rx)),
        Err(oneshot::RecvError::SenderClosed)
    );
    assert!(oneshot::may_poll(false));
    assert!(!oneshot::may_poll(true));
}

#[test]
fn oneshot_transforms() {
    let (tx, rx): (Oneshot<u64>, oneshot::Receiver<u64, ()>) = oneshot::channel();
    let tx = tx.with_filter(|x| *x > 5).with_map(|x: u64| x * 2);
    // Boxed senders count as remote.
    assert!(tx.is_rpc());
    match tx.pass(4) {
        Some(oneshot::Passed::Boxed(oneshot::Passed::Boxed(oneshot::Passed::Tokio(tx, v)))) => {
            assert_eq!(oneshot::send_local(tx, v), Ok(()));
        }
        _ => panic!("dropped"),
    }
    assert_eq!(block_on(rx.into_tokio().ok().unwrap()), Ok(8));
    let (tx, rx): (Oneshot<u64>, oneshot::Receiver<u64, ()>) = oneshot::channel();
    let tx = tx.with_filter(|x| *x > 5).with_map(|x: u64| x * 2);
    assert!(tx.pass(2).is_none());
    assert_eq!(
        oneshot::local_received(block_on(rx.into_tokio().ok().unwrap())),
        Err(oneshot::RecvError::SenderClosed)
    );
}
