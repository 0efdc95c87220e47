//! Oneshot channel, similar to the oneshot channel of tokio.
use crate::channel::SendError;
use crate::error::{ErrorKind, IoCause, IoError};
use tokio::sync::oneshot::channel as tokio_oneshot_channel;
use tokio::sync::oneshot::Receiver as TokioOneshotReceiver;
use tokio::sync::oneshot::Sender as TokioOneshotSender;
use vstd::prelude::*;

verus! {

/// Error when receiving a message.
#[derive(Debug, Clone, PartialEq, Eq)]
pub enum RecvError {
    /// The sender has been closed.
    SenderClosed,
    /// The message exceeded the maximum allowed message size.
    MaxMessageSizeExceeded,
    /// An io error occurred, such as a network error or a deserialization error.
    Io { source: IoError },
}

impl From<RecvError> for IoError {
    fn from(e: RecvError) -> (r: Self) {
        match e {
            RecvError::Io { source } => source,
            RecvError::SenderClosed => IoError {
                kind: ErrorKind::BrokenPipe,
                cause: IoCause::SenderClosed,
            },
            RecvError::MaxMessageSizeExceeded => IoError {
                kind: ErrorKind::InvalidData,
                cause: IoCause::MaxMessageSizeExceeded,
            },
        }
    }
}

impl RecvError {
    /// The I/O error that this is.
    pub open spec fn io_error(self) -> IoError {
        match self {
            RecvError::Io { source } => source,
            RecvError::SenderClosed => IoError {
                kind: ErrorKind::BrokenPipe,
                cause: IoCause::SenderClosed,
            },
            RecvError::MaxMessageSizeExceeded => IoError {
                kind: ErrorKind::InvalidData,
                cause: IoCause::MaxMessageSizeExceeded,
            },
        }
    }
}

impl vstd::std_specs::convert::FromSpecImpl<RecvError> for IoError {
    open spec fn obeys_from_spec() -> bool {
        true
    }

    open spec fn from_spec(e: RecvError) -> Self {
        e.io_error()
    }
}

/// A sender that can be put under another sender.
///
/// A message that it is given either passes, together with the sender at the bottom, or is
/// dropped.
pub trait DynSender<T>: Sized {
    /// A message with the sender at the bottom that it goes to.
    type Base;

    /// This message can be given to the sender.
    spec fn accepts(self, value: T) -> bool;

    /// This is what can come of the message: what passes, or `None` if it is dropped.
    spec fn passes(self, value: T, passed: Option<Self::Base>) -> bool;

    /// True if this is a remote sender.
    spec fn remote(self) -> bool;

    /// Lets the only message pass.
    fn pass(self, value: T) -> (r: Option<Self::Base>)
        requires
            self.accepts(value),
        ensures
            self.passes(value, r),
    ;

    /// True if this is a remote sender.
    fn is_rpc(&self) -> (r: bool)
        ensures
            r == self.remote(),
    ;
}

/// A sender at the bottom that goes over a stream, by what stands for the stream.
#[derive(Debug, Clone, Copy)]
pub struct RemoteSink<W> {
    pub stream: W,
}

impl<T, W> DynSender<T> for RemoteSink<W> {
    type Base = (W, T);

    open spec fn accepts(self, value: T) -> bool {
        true
    }

    open spec fn passes(self, value: T, passed: Option<(W, T)>) -> bool {
        passed == Some((self.stream, value))
    }

    open spec fn remote(self) -> bool {
        true
    }

    fn pass(self, value: T) -> (r: Option<(W, T)>) {
        Some((self.stream, value))
    }

    fn is_rpc(&self) -> (r: bool) {
        true
    }
}

/// A message that has passed a [`Sender`], with where it goes.
#[verifier::reject_recursive_types(T)]
pub enum Passed<T, B> {
    /// It goes into the local channel.
    Tokio(TokioOneshotSender<T>, T),
    /// It goes to the sender at the bottom of the boxed sender.
    Boxed(B),
}

/// A oneshot sender.
///
/// Compared to a local oneshot sender, sending a message is async since in the case of remote
/// communication, sending over the wire is async. Other than that it behaves like a local oneshot
/// sender and has no overhead in the local case.
#[verifier::reject_recursive_types(T)]
pub enum Sender<T, D> {
    Tokio(TokioOneshotSender<T>),
    /// Boxed senders count as remote, whatever they are.
    Boxed(D),
}

impl<T, D> crate::sealed::Sealed for Sender<T, D> {

}

impl<T, D> From<TokioOneshotSender<T>> for Sender<T, D> {
    fn from(tx: TokioOneshotSender<T>) -> (r: Self) {
        Sender::Tokio(tx)
    }
}

impl<T, D> vstd::std_specs::convert::FromSpecImpl<TokioOneshotSender<T>> for Sender<T, D> {
    open spec fn obeys_from_spec() -> bool {
        true
    }

    open spec fn from_spec(tx: TokioOneshotSender<T>) -> Self {
        Sender::Tokio(tx)
    }
}

impl<T, D> Sender<T, D> {
    /// True if this is a remote sender.
    pub open spec fn remote(self) -> bool {
        self is Boxed
    }

    /// Check if this is a remote sender.
    pub fn is_rpc(&self) -> (r: bool)
        ensures
            r == self.remote(),
    {
        match self {
            Sender::Tokio(_) => false,
            Sender::Boxed(_) => true,
        }
    }

    /// The tokio sender, if this is one.
    pub fn into_tokio(self) -> (r: Result<TokioOneshotSender<T>, Self>)
        ensures
            r == match self {
                Sender::Tokio(tx) => Ok(tx),
                Sender::Boxed(_) => Err(self),
            },
    {
        match self {
            Sender::Tokio(tx) => Ok(tx),
            Sender::Boxed(inner) => Err(Sender::Boxed(inner)),
        }
    }
}

/// What sending into a local channel leads to. It fails only if the receiver is gone.
pub open spec fn local_sent_spec<V>(res: Result<(), V>) -> Result<(), SendError> {
    match res {
        Ok(()) => Ok(()),
        Err(_) => Err(SendError::ReceiverClosed),
    }
}

/// What sending into a local channel leads to. It fails only if the receiver is gone.
pub fn local_sent<V>(res: Result<(), V>) -> (r: Result<(), SendError>)
    ensures
        r == local_sent_spec(res),
{
    match res {
        Ok(()) => Ok(()),
        Err(_) => Err(SendError::ReceiverClosed),
    }
}

/// Sends the message into a local channel. This does not wait.
///
/// The result is that of sending `value` through `tx`, where the only error is that the receiver is
/// gone.
pub fn send_local<T>(tx: TokioOneshotSender<T>, value: T) -> (r: Result<(), SendError>)
    ensures
        exists|sent: Result<(), T>|
            call_ensures(TokioOneshotSender::<T>::send, (tx, value), sent) && r
                == #[trigger] local_sent_spec(sent),
{
    local_sent(tx.send(value))
}

impl<T, D: DynSender<T>> Sender<T, D> {
    /// This message can be given to the sender.
    pub open spec fn accepts(self, value: T) -> bool {
        match self {
            Sender::Tokio(_) => true,
            Sender::Boxed(inner) => inner.accepts(value),
        }
    }

    /// This is what can come of the message: what passes, or `None` if it is dropped.
    pub open spec fn passes(self, value: T, passed: Option<Passed<T, D::Base>>) -> bool {
        match self {
            Sender::Tokio(tx) => passed == Some(Passed::<T, D::Base>::Tokio(tx, value)),
            Sender::Boxed(inner) => match passed {
                None => inner.passes(value, None),
                Some(Passed::Boxed(base)) => inner.passes(value, Some(base)),
                Some(Passed::Tokio(_, _)) => false,
            },
        }
    }

    /// Lets the only message pass.
    pub fn pass(self, value: T) -> (r: Option<Passed<T, D::Base>>)
        requires
            self.accepts(value),
        ensures
            self.passes(value, r),
    {
        match self {
            Sender::Tokio(tx) => Some(Passed::Tokio(tx, value)),
            Sender::Boxed(inner) => match inner.pass(value) {
                Some(base) => Some(Passed::Boxed(base)),
                None => None,
            },
        }
    }

    /// Applies a filter and transform before sending.
    ///
    /// Messages that don't pass the filter are dropped.
    pub fn with_filter_map<U, F: Fn(U) -> Option<T>>(self, f: F) -> (r: Sender<
        U,
        FilterMapSender<F, T, D>,
    >)
        ensures
            r == Sender::<U, _>::Boxed(FilterMapSender { f, sender: self }),
    {
        Sender::Boxed(FilterMapSender { f, sender: self })
    }

    /// Applies a filter before sending.
    ///
    /// Messages that don't pass the filter are dropped.
    pub fn with_filter<F: Fn(&T) -> bool>(self, f: F) -> (r: Sender<
        T,
        FilterMapSender<impl Fn(T) -> Option<T>, T, D>,
    >)
        ensures
            r is Boxed,
            forall|value: T|
                (f.requires((&value,)) && (f.ensures((&value,), true) ==> self.accepts(value)))
                    ==> #[trigger] r.accepts(value),
            forall|value: T, passed: Option<Passed<T, Passed<T, D::Base>>>| #[trigger]
                r.passes(value, passed) ==> match passed {
                    None => f.ensures((&value,), false) || self.passes(value, None),
                    Some(Passed::Boxed(base)) => f.ensures((&value,), true) && self.passes(
                        value,
                        Some(base),
                    ),
                    Some(Passed::Tokio(_, _)) => false,
                },
    {
        self.with_filter_map(
            move |u: T| -> (o: Option<T>)
                requires
                    f.requires((&u,)),
                ensures
                    match o {
                        Some(v) => v == u && f.ensures((&u,), true),
                        None => f.ensures((&u,), false),
                    }
                {
                    if f(&u) {
                        Some(u)
                    } else {
                        None
                    }
                },
        )
    }

    /// Applies a transform before sending.
    pub fn with_map<U, F: Fn(U) -> T>(self, f: F) -> (r: Sender<
        U,
        FilterMapSender<impl Fn(U) -> Option<T>, T, D>,
    >)
        ensures
            r is Boxed,
            forall|value: U|
                (f.requires((value,)) && forall|v: T| #[trigger]
                    f.ensures((value,), v) ==> self.accepts(v)) ==> #[trigger] r.accepts(value),
            forall|value: U, passed: Option<Passed<U, Passed<T, D::Base>>>| #[trigger]
                r.passes(value, passed) ==> match passed {
                    None => exists|v: T| #[trigger]
                        f.ensures((value,), v) && self.passes(v, None),
                    Some(Passed::Boxed(base)) => exists|v: T| #[trigger]
                        f.ensures((value,), v) && self.passes(v, Some(base)),
                    Some(Passed::Tokio(_, _)) => false,
                },
    {
        self.with_filter_map(
            move |u: U| -> (o: Option<T>)
                requires
                    f.requires((u,)),
                ensures
                    o matches Some(v) && f.ensures((u,), v)
                { Some(f(u)) },
        )
    }
}

/// A sender that filters and transforms the message before it passes it to another sender.
#[verifier::reject_recursive_types(T)]
pub struct FilterMapSender<F, T, D> {
    pub f: F,
    pub sender: Sender<T, D>,
}

impl<F: Fn(U) -> Option<T>, U, T, D: DynSender<T>> DynSender<U> for FilterMapSender<F, T, D> {
    type Base = Passed<T, D::Base>;

    open spec fn accepts(self, value: U) -> bool {
        &&& self.f.requires((value,))
        &&& forall|v: T| #[trigger] self.f.ensures((value,), Some(v)) ==> self.sender.accepts(v)
    }

    open spec fn passes(self, value: U, passed: Option<Passed<T, D::Base>>) -> bool {
        ||| passed is None && self.f.ensures((value,), None)
        ||| exists|v: T| #[trigger]
            self.f.ensures((value,), Some(v)) && self.sender.passes(v, passed)
    }

    open spec fn remote(self) -> bool {
        true
    }

    fn pass(self, value: U) -> (r: Option<Passed<T, D::Base>>) {
        match (self.f)(value) {
            Some(v) => self.sender.pass(v),
            None => None,
        }
    }

    fn is_rpc(&self) -> (r: bool) {
        true
    }
}

/// A oneshot receiver, with what stands for a remote one.
///
/// Compared to a local oneshot receiver, receiving a message can fail not just when the sender has
/// been closed, but also when the remote connection fails.
#[verifier::reject_recursive_types(T)]
pub enum Receiver<T, B> {
    Tokio(TokioOneshotReceiver<T>),
    Boxed(B),
}

impl<T, B> crate::sealed::Sealed for Receiver<T, B> {

}

impl<T, B> From<TokioOneshotReceiver<T>> for Receiver<T, B> {
    fn from(rx: TokioOneshotReceiver<T>) -> (r: Self) {
        Receiver::Tokio(rx)
    }
}

impl<T, B> vstd::std_specs::convert::FromSpecImpl<TokioOneshotReceiver<T>> for Receiver<T, B> {
    open spec fn obeys_from_spec() -> bool {
        true
    }

    open spec fn from_spec(rx: TokioOneshotReceiver<T>) -> Self {
        Receiver::Tokio(rx)
    }
}

impl<T, B> Receiver<T, B> {
    /// The tokio receiver, if this is one.
    pub fn into_tokio(self) -> (r: Result<TokioOneshotReceiver<T>, Self>)
        ensures
            r == match self {
                Receiver::Tokio(rx) => Ok(rx),
                Receiver::Boxed(_) => Err(self),
            },
    {
        match self {
            Receiver::Tokio(rx) => Ok(rx),
            Receiver::Boxed(inner) => Err(Receiver::Boxed(inner)),
        }
    }
}

/// What receiving from a local channel leads to. It fails only if the sender is gone.
pub fn local_received<T, V>(res: Result<T, V>) -> (r: Result<T, RecvError>)
    ensures
        r == match res {
            Ok(value) => Ok(value),
            Err(_) => Err::<T, _>(RecvError::SenderClosed),
        },
{
    match res {
        Ok(value) => Ok(value),
        Err(_) => Err(RecvError::SenderClosed),
    }
}

/// Whether a local receiver may be polled. One that has given its message is pending for ever:
/// polling it again would panic.
pub fn may_poll(terminated: bool) -> (r: bool)
    ensures
        r == !terminated,
{
    !terminated
}

/// Create a local oneshot sender and receiver pair.
///
/// They are the two halves of one tokio channel.
pub fn channel<T, D, B>() -> (r: (Sender<T, D>, Receiver<T, B>))
    ensures
        r.0 matches Sender::Tokio(tx) && r.1 matches Receiver::Tokio(rx) && call_ensures(
            tokio_oneshot_channel::<T>,
            (),
            (tx, rx),
        ),
{
    let (tx, rx) = tokio_oneshot_channel();
    (Sender::Tokio(tx), Receiver::Tokio(rx))
}

impl RecvError {
    /// What went wrong, in words.
    pub open spec fn text_spec(self) -> Seq<char> {
        match self {
            RecvError::SenderClosed => "Sender closed"@,
            RecvError::MaxMessageSizeExceeded => "Maximum message size exceeded"@,
            RecvError::Io { .. } => "Io error"@,
        }
    }

    /// What went wrong, in words.
    pub fn text(&self) -> (r: &'static str)
        ensures
            r@ == self.text_spec(),
    {
        match self {
            RecvError::SenderClosed => "Sender closed",
            RecvError::MaxMessageSizeExceeded => "Maximum message size exceeded",
            RecvError::Io { .. } => "Io error",
        }
    }
}

/// An I/O error stays what it is. A sender that is gone is a broken pipe, and a message that is too
/// large is invalid data.
pub proof fn law_recv_errors(e: RecvError)
    ensures
        e matches RecvError::Io { source } ==> e.io_error() == source,
        e is SenderClosed ==> e.io_error().kind == ErrorKind::BrokenPipe && e.io_error().cause
            == IoCause::SenderClosed,
        e is MaxMessageSizeExceeded ==> e.io_error().kind == ErrorKind::InvalidData
            && e.io_error().cause == IoCause::MaxMessageSizeExceeded,
{
}

/// Sending into a local channel fails only if the message comes back, and then the receiver is gone.
pub proof fn law_local_send<V>(res: Result<(), V>)
    ensures
        local_sent_spec(res) is Ok <==> res is Ok,
        res is Err ==> local_sent_spec(res) == Err::<(), _>(SendError::ReceiverClosed),
{
}

/// A sender without filters lets every message through as it is, to where it sends. A sender is remote
/// exactly if it goes over a stream.
pub proof fn law_messages_pass_unchanged<T, W>(
    tx: TokioOneshotSender<T>,
    sink: RemoteSink<W>,
    value: T,
    out: Option<(W, T)>,
)
    ensures
        ({
            let local = Sender::<T, RemoteSink<W>>::Tokio(tx);
            let remote = Sender::<T, RemoteSink<W>>::Boxed(sink);
            &&& local.accepts(value) && remote.accepts(value)
            &&& local.passes(value, Some(Passed::Tokio(tx, value))) && !local.passes(value, None)
            &&& remote.passes(value, Some(Passed::Boxed((sink.stream, value))))
            &&& !remote.passes(value, None)
            &&& forall|p| #[trigger] local.passes(value, p) ==> p == Some(
                Passed::<T, (W, T)>::Tokio(tx, value),
            )
            &&& forall|p| #[trigger]
                remote.passes(value, p) ==> p == Some(
                Passed::<T, (W, T)>::Boxed((sink.stream, value)),
            )
            &&& !local.remote() && remote.remote()
        }),
        DynSender::<T>::passes(sink, value, out) <==> out == Some((sink.stream, value)),
{
}

/// What comes of a message that is sent through a filter: it is dropped if the filter drops it, and
/// else what the filter makes of it goes to the sender below.
pub proof fn law_filtered_messages<F, U, T, D>(
    filter: FilterMapSender<F, T, D>,
    value: U,
    passed: Option<Passed<T, D::Base>>,
) where F: Fn(U) -> Option<T>, D: DynSender<T>
    ensures
        filter.passes(value, passed) ==> (passed is None && filter.f.ensures((value,), None)) || (
        exists|v: T| #[trigger]
            filter.f.ensures((value,), Some(v)) && filter.sender.passes(v, passed)),
        filter.f.ensures((value,), None) ==> filter.passes(value, None),
        forall|v: T| #[trigger]
            filter.f.ensures((value,), Some(v)) && filter.sender.passes(v, passed)
                ==> filter.passes(value, passed),
{
}

/// What a local channel gives is handed on as it is, and if it gives nothing the sender is gone.
pub proof fn law_local_receipt<T, V>(res: Result<T, V>, r: Result<T, RecvError>)
    requires
        call_ensures(local_received::<T, V>, (res,), r),
    ensures
        r is Ok <==> res is Ok,
        r matches Ok(value) ==> res->Ok_0 == value,
        r matches Err(e) ==> e is SenderClosed,
{
}

} // verus!
