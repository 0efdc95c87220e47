//! SPSC channel, similar to the mpsc channel of tokio.
//!
//! For the rpc case, the send side can not be cloned.
use crate::channel::tokio_types::{mpsc_try_send, TrySent};
use crate::channel::SendError;
use crate::error::{ErrorKind, IoCause, IoError};
use std::sync::Arc;
use tokio::sync::mpsc::channel as tokio_channel;
use tokio::sync::mpsc::Receiver as TokioReceiver;
use tokio::sync::mpsc::Sender as TokioSender;
use vstd::prelude::*;

verus! {

/// Error when receiving a message.
#[derive(Debug, Clone, PartialEq, Eq)]
pub enum RecvError {
    /// The message exceeded the maximum allowed message size.
    MaxMessageSizeExceeded,
    /// An io error occurred, such as a network error or a deserialization error.
    Io { source: IoError },
}

impl From<RecvError> for IoError {
    fn from(e: RecvError) -> (r: Self) {
        match e {
            RecvError::Io { source } => source,
            RecvError::MaxMessageSizeExceeded => IoError {
                kind: ErrorKind::InvalidData,
                cause: IoCause::MaxMessageSizeExceeded,
            },
        }
    }
}

impl RecvError {
    /// The I/O error that this is.
    pub open spec fn io_error(self) -> IoError {
        match self {
            RecvError::Io { source } => source,
            RecvError::MaxMessageSizeExceeded => IoError {
                kind: ErrorKind::InvalidData,
                cause: IoCause::MaxMessageSizeExceeded,
            },
        }
    }
}

impl vstd::std_specs::convert::FromSpecImpl<RecvError> for IoError {
    open spec fn obeys_from_spec() -> bool {
        true
    }

    open spec fn from_spec(e: RecvError) -> Self {
        e.io_error()
    }
}

/// A sender that can be put under another sender.
///
/// A message that it is given either passes, as a message for the sender at the bottom, or is
/// dropped.
pub trait DynSender<T>: Sized {
    /// A message for the sender at the bottom.
    type Base;

    /// This message can be given to the sender.
    spec fn accepts(&self, value: T) -> bool;

    /// This is what can come of the message: what passes, or `None` if it is dropped.
    spec fn passes(&self, value: T, passed: Option<Self::Base>) -> bool;

    /// True if this is a remote sender.
    spec fn remote(&self) -> bool;

    /// Lets a message pass.
    fn pass(&self, value: T) -> (r: Option<Self::Base>)
        requires
            self.accepts(value),
        ensures
            self.passes(value, r),
    ;

    /// True if this is a remote sender.
    fn is_rpc(&self) -> (r: bool)
        ensures
            r == self.remote(),
    ;
}

/// A message that has passed a [`Sender`].
#[derive(Debug, Clone, PartialEq, Eq)]
pub enum Passed<T, B> {
    /// It goes into the local channel.
    Tokio(T),
    /// It goes to the sender at the bottom of the boxed sender.
    Boxed(B),
}

/// A sender at the bottom that goes over a stream, by what stands for the stream: every message
/// passes as it is.
#[derive(Debug, Clone, Copy)]
pub struct RemoteSink<W> {
    pub stream: W,
}

impl<T, W> DynSender<T> for RemoteSink<W> {
    type Base = T;

    open spec fn accepts(&self, value: T) -> bool {
        true
    }

    open spec fn passes(&self, value: T, passed: Option<T>) -> bool {
        passed == Some(value)
    }

    open spec fn remote(&self) -> bool {
        true
    }

    fn pass(&self, value: T) -> (r: Option<T>) {
        Some(value)
    }

    fn is_rpc(&self) -> (r: bool) {
        true
    }
}

/// Single producer, single consumer sender.
///
/// For the local case, this wraps a tokio sender.
#[verifier::reject_recursive_types(T)]
pub enum Sender<T, D = RemoteSink<()>> {
    Tokio(TokioSender<T>),
    Boxed(Arc<D>),
}

impl<T, D> crate::sealed::Sealed for Sender<T, D> {

}

impl<T, D> Clone for Sender<T, D> {
    fn clone(&self) -> (r: Self)
        ensures
            r == *self,
    {
        match self {
            Sender::Tokio(tx) => Sender::Tokio(tx.clone()),
            Sender::Boxed(inner) => Sender::Boxed(inner.clone()),
        }
    }
}

impl<T, D> From<TokioSender<T>> for Sender<T, D> {
    fn from(tx: TokioSender<T>) -> (r: Self) {
        Sender::Tokio(tx)
    }
}

impl<T, D> vstd::std_specs::convert::FromSpecImpl<TokioSender<T>> for Sender<T, D> {
    open spec fn obeys_from_spec() -> bool {
        true
    }

    open spec fn from_spec(tx: TokioSender<T>) -> Self {
        Sender::Tokio(tx)
    }
}

/// What an attempt to send into a local channel leads to: whether the message was sent.
pub open spec fn try_sent_spec(sent: TrySent) -> Result<bool, SendError> {
    match sent {
        TrySent::Sent => Ok(true),
        TrySent::Full => Ok(false),
        TrySent::Closed => Err(SendError::ReceiverClosed),
    }
}

/// What an attempt to send into a local channel leads to: whether the message was sent.
pub fn try_sent(sent: TrySent) -> (r: Result<bool, SendError>)
    ensures
        r == try_sent_spec(sent),
{
    match sent {
        TrySent::Sent => Ok(true),
        TrySent::Full => Ok(false),
        TrySent::Closed => Err(SendError::ReceiverClosed),
    }
}

/// What sending into a local channel leads to. It fails only if the receiver is gone.
pub fn local_sent<V>(res: Result<(), V>) -> (r: Result<(), SendError>)
    ensures
        r == match res {
            Ok(()) => Ok(()),
            Err(_) => Err::<(), _>(SendError::ReceiverClosed),
        },
{
    match res {
        Ok(()) => Ok(()),
        Err(_) => Err(SendError::ReceiverClosed),
    }
}

/// This is how an attempt of tokio to send `value` through `tx` can come out.
pub closed spec fn try_send_outcome<T>(tx: &TokioSender<T>, value: T, sent: TrySent) -> bool {
    call_ensures(mpsc_try_send::<T>, (tx, value), sent)
}

/// Tries to send a message into a local channel, without waiting.
///
/// The result is that of an attempt to send `value` through `tx`: there is no error if the channel is
/// full, only if the receiver is gone.
pub fn try_send_local<T>(tx: &TokioSender<T>, value: T) -> (r: Result<bool, SendError>)
    ensures
        exists|sent: TrySent|
            try_send_outcome(tx, value, sent) && r == #[trigger] try_sent_spec(sent),
{
    try_sent(mpsc_try_send(tx, value))
}

impl<T, D: DynSender<T>> Sender<T, D> {
    /// This message can be given to the sender.
    pub open spec fn accepts(&self, value: T) -> bool {
        match *self {
            Sender::Tokio(_) => true,
            Sender::Boxed(inner) => inner.accepts(value),
        }
    }

    /// This is what can come of the message: what passes, or `None` if it is dropped.
    pub open spec fn passes(&self, value: T, passed: Option<Passed<T, D::Base>>) -> bool {
        match *self {
            Sender::Tokio(_) => passed == Some(Passed::<T, D::Base>::Tokio(value)),
            Sender::Boxed(inner) => match passed {
                None => inner.passes(value, None),
                Some(Passed::Boxed(base)) => inner.passes(value, Some(base)),
                Some(Passed::Tokio(_)) => false,
            },
        }
    }

    /// True if this is a remote sender.
    pub open spec fn remote(&self) -> bool {
        match *self {
            Sender::Tokio(_) => false,
            Sender::Boxed(inner) => inner.remote(),
        }
    }

    /// Lets a message pass.
    pub fn pass(&self, value: T) -> (r: Option<Passed<T, D::Base>>)
        requires
            self.accepts(value),
        ensures
            self.passes(value, r),
    {
        match self {
            Sender::Tokio(_) => Some(Passed::Tokio(value)),
            Sender::Boxed(inner) => match inner.pass(value) {
                Some(base) => Some(Passed::Boxed(base)),
                None => None,
            },
        }
    }

    /// True if this is a remote sender.
    pub fn is_rpc(&self) -> (r: bool)
        ensures
            r == self.remote(),
    {
        match self {
            Sender::Tokio(_) => false,
            Sender::Boxed(inner) => inner.is_rpc(),
        }
    }

    /// Applies a filter and transform before sending.
    ///
    /// Any combination of filters and maps can be expressed using a single filter_map.
    pub fn with_filter_map<U, F: Fn(U) -> Option<T>>(self, f: F) -> (r: Sender<
        U,
        FilterMapSender<F, T, D>,
    >)
        ensures
            r matches Sender::Boxed(inner) && *inner == (FilterMapSender { f, sender: self }),
    {
        Sender::Boxed(Arc::new(FilterMapSender { f, sender: self }))
    }

    /// Applies a filter before sending.
    ///
    /// Messages that don't pass the filter are dropped.
    pub fn with_filter<F: Fn(&T) -> bool>(self, f: F) -> (r: Sender<
        T,
        FilterMapSender<impl Fn(T) -> Option<T>, T, D>,
    >)
        ensures
            r is Boxed,
            forall|value: T|
                (f.requires((&value,)) && (f.ensures((&value,), true) ==> self.accepts(value)))
                    ==> #[trigger] r.accepts(value),
            forall|value: T, passed: Option<Passed<T, Passed<T, D::Base>>>| #[trigger]
                r.passes(value, passed) ==> match passed {
                    None => f.ensures((&value,), false) || self.passes(value, None),
                    Some(Passed::Boxed(base)) => f.ensures((&value,), true) && self.passes(
                        value,
                        Some(base),
                    ),
                    Some(Passed::Tokio(_)) => false,
                },
            r.remote() == self.remote(),
    {
        self.with_filter_map(
            move |u: T| -> (o: Option<T>)
                requires
                    f.requires((&u,)),
                ensures
                    match o {
                        Some(v) => v == u && f.ensures((&u,), true),
                        None => f.ensures((&u,), false),
                    }
                {
                    if f(&u) {
                        Some(u)
                    } else {
                        None
                    }
                },
        )
    }

    /// Applies a transform before sending.
    pub fn with_map<U, F: Fn(U) -> T>(self, f: F) -> (r: Sender<
        U,
        FilterMapSender<impl Fn(U) -> Option<T>, T, D>,
    >)
        ensures
            r is Boxed,
            forall|value: U|
                (f.requires((value,)) && forall|v: T| #[trigger]
                    f.ensures((value,), v) ==> self.accepts(v)) ==> #[trigger] r.accepts(value),
            forall|value: U, passed: Option<Passed<U, Passed<T, D::Base>>>| #[trigger]
                r.passes(value, passed) ==> match passed {
                    None => exists|v: T| #[trigger]
                        f.ensures((value,), v) && self.passes(v, None),
                    Some(Passed::Boxed(base)) => exists|v: T| #[trigger]
                        f.ensures((value,), v) && self.passes(v, Some(base)),
                    Some(Passed::Tokio(_)) => false,
                },
            r.remote() == self.remote(),
    {
        self.with_filter_map(
            move |u: U| -> (o: Option<T>)
                requires
                    f.requires((u,)),
                ensures
                    o matches Some(v) && f.ensures((u,), v)
                { Some(f(u)) },
        )
    }
}

impl<T, D> Sender<T, D> {
    /// The tokio sender, if this is one.
    pub fn into_tokio(self) -> (r: Result<TokioSender<T>, Self>)
        ensures
            r == match self {
                Sender::Tokio(tx) => Ok(tx),
                Sender::Boxed(_) => Err(self),
            },
    {
        match self {
            Sender::Tokio(tx) => Ok(tx),
            Sender::Boxed(inner) => Err(Sender::Boxed(inner)),
        }
    }
}

/// A sender that filters and transforms messages before it passes them to another sender.
#[verifier::reject_recursive_types(T)]
pub struct FilterMapSender<F, T, D> {
    pub f: F,
    pub sender: Sender<T, D>,
}

impl<F: Fn(U) -> Option<T>, U, T, D: DynSender<T>> DynSender<U> for FilterMapSender<F, T, D> {
    type Base = Passed<T, D::Base>;

    open spec fn accepts(&self, value: U) -> bool {
        &&& self.f.requires((value,))
        &&& forall|v: T| #[trigger] self.f.ensures((value,), Some(v)) ==> self.sender.accepts(v)
    }

    open spec fn passes(&self, value: U, passed: Option<Passed<T, D::Base>>) -> bool {
        ||| passed is None && self.f.ensures((value,), None)
        ||| exists|v: T| #[trigger]
            self.f.ensures((value,), Some(v)) && self.sender.passes(v, passed)
    }

    open spec fn remote(&self) -> bool {
        self.sender.remote()
    }

    fn pass(&self, value: U) -> (r: Option<Passed<T, D::Base>>) {
        match (self.f)(value) {
            Some(v) => self.sender.pass(v),
            None => None,
        }
    }

    fn is_rpc(&self) -> (r: bool) {
        self.sender.is_rpc()
    }
}

/// What sending a message through a filter comes to, if `passed` says whether it has passed. A
/// message that is dropped counts as sent.
pub fn filtered_send<B>(passed: &Option<B>) -> (r: Option<Result<(), SendError>>)
    ensures
        r == match *passed {
            Some(_) => None::<Result<(), SendError>>,
            None => Some(Ok(())),
        },
{
    match passed {
        Some(_) => None,
        None => Some(Ok(())),
    }
}

/// What trying to send a message through a filter comes to, if `passed` says whether it has
/// passed. A message that is dropped counts as sent.
pub fn filtered_try_send<B>(passed: &Option<B>) -> (r: Option<Result<bool, SendError>>)
    ensures
        r == match *passed {
            Some(_) => None::<Result<bool, SendError>>,
            None => Some(Ok(true)),
        },
{
    match passed {
        Some(_) => None,
        None => Some(Ok(true)),
    }
}

/// A receiver that can be put under another receiver.
///
/// A message that arrives at the bottom is either delivered or dropped.
pub trait DynReceiver<T>: Sized {
    /// A message that arrives at the bottom.
    type Base;

    /// This message can be given to the receiver.
    spec fn accepts(&self, base: Self::Base) -> bool;

    /// This is what can come of the message: what is delivered, or `None` if it is dropped.
    spec fn delivers(&self, base: Self::Base, delivered: Option<T>) -> bool;

    /// Delivers a message.
    fn deliver(&self, base: Self::Base) -> (r: Option<T>)
        requires
            self.accepts(base),
        ensures
            self.delivers(base, r),
    ;
}

/// A receiver at the bottom that reads from a stream, by what stands for the stream: every message
/// is delivered as it is.
#[derive(Debug, Clone, Copy)]
pub struct RemoteSource<R> {
    pub stream: R,
}

impl<T, R> DynReceiver<T> for RemoteSource<R> {
    type Base = T;

    open spec fn accepts(&self, base: T) -> bool {
        true
    }

    open spec fn delivers(&self, base: T, delivered: Option<T>) -> bool {
        delivered == Some(base)
    }

    fn deliver(&self, base: T) -> (r: Option<T>) {
        Some(base)
    }
}

/// Single producer, single consumer receiver.
#[verifier::reject_recursive_types(T)]
pub enum Receiver<T, D = RemoteSource<()>> {
    Tokio(TokioReceiver<T>),
    Boxed(Box<D>),
}

impl<T, D> crate::sealed::Sealed for Receiver<T, D> {

}

impl<T, D> From<TokioReceiver<T>> for Receiver<T, D> {
    fn from(rx: TokioReceiver<T>) -> (r: Self) {
        Receiver::Tokio(rx)
    }
}

impl<T, D> vstd::std_specs::convert::FromSpecImpl<TokioReceiver<T>> for Receiver<T, D> {
    open spec fn obeys_from_spec() -> bool {
        true
    }

    open spec fn from_spec(rx: TokioReceiver<T>) -> Self {
        Receiver::Tokio(rx)
    }
}

impl<T, D> Receiver<T, D> {
    /// The tokio receiver, if this is one.
    pub fn into_tokio(self) -> (r: Result<TokioReceiver<T>, Self>)
        ensures
            r == match self {
                Receiver::Tokio(rx) => Ok(rx),
                Receiver::Boxed(_) => Err(self),
            },
    {
        match self {
            Receiver::Tokio(rx) => Ok(rx),
            Receiver::Boxed(inner) => Err(Receiver::Boxed(inner)),
        }
    }
}

impl<T, D: DynReceiver<T>> Receiver<T, D> {
    /// This message can be given to the receiver.
    pub open spec fn accepts(&self, base: Passed<T, D::Base>) -> bool {
        match (*self, base) {
            (Receiver::Tokio(_), Passed::Tokio(_)) => true,
            (Receiver::Boxed(inner), Passed::Boxed(base)) => inner.accepts(base),
            _ => false,
        }
    }

    /// This is what can come of the message: what is delivered, or `None` if it is dropped.
    pub open spec fn delivers(&self, base: Passed<T, D::Base>, delivered: Option<T>) -> bool {
        match (*self, base) {
            (Receiver::Tokio(_), Passed::Tokio(value)) => delivered == Some(value),
            (Receiver::Boxed(inner), Passed::Boxed(base)) => inner.delivers(base, delivered),
            _ => false,
        }
    }

    /// Delivers a message that arrives at the bottom.
    pub fn deliver(&self, base: Passed<T, D::Base>) -> (r: Option<T>)
        requires
            self.accepts(base),
        ensures
            self.delivers(base, r),
    {
        match self {
            Receiver::Tokio(_) => match base {
                Passed::Tokio(value) => Some(value),
                Passed::Boxed(_) => None,
            },
            Receiver::Boxed(inner) => match base {
                Passed::Boxed(base) => inner.deliver(base),
                Passed::Tokio(_) => None,
            },
        }
    }

    /// Filter and map messages, only passing through those for which the function returns Some.
    ///
    /// Messages that don't pass the filter are dropped.
    pub fn filter_map<U, F: Fn(T) -> Option<U>>(self, f: F) -> (r: Receiver<
        U,
        FilterMapReceiver<F, T, D>,
    >)
        ensures
            r matches Receiver::Boxed(inner) && *inner == (FilterMapReceiver { f, receiver: self }),
    {
        Receiver::Boxed(Box::new(FilterMapReceiver { f, receiver: self }))
    }

    /// Map messages, transforming them from type T to type U.
    pub fn map<U, F: Fn(T) -> U>(self, f: F) -> (r: Receiver<
        U,
        FilterMapReceiver<impl Fn(T) -> Option<U>, T, D>,
    >)
        ensures
            r is Boxed,
            forall|base: Passed<T, D::Base>|
                self.accepts(base) && (forall|v: T| #[trigger]
                    self.delivers(base, Some(v)) ==> f.requires((v,))) ==> #[trigger] r.accepts(
                    Passed::Boxed(base),
                ),
            forall|base: Passed<T, D::Base>, delivered: Option<U>| #[trigger]
                r.delivers(Passed::Boxed(base), delivered) ==> match delivered {
                    None => self.delivers(base, None),
                    Some(u) => exists|v: T| #[trigger]
                        self.delivers(base, Some(v)) && f.ensures((v,), u),
                },
    {
        self.filter_map(
            move |v: T| -> (o: Option<U>)
                requires
                    f.requires((v,)),
                ensures
                    o matches Some(u) && f.ensures((v,), u)
                { Some(f(v)) },
        )
    }

    /// Filter messages, only passing through those for which the predicate returns true.
    ///
    /// Messages that don't pass the filter are dropped.
    pub fn filter<F: Fn(&T) -> bool>(self, f: F) -> (r: Receiver<
        T,
        FilterMapReceiver<impl Fn(T) -> Option<T>, T, D>,
    >)
        ensures
            r is Boxed,
            forall|base: Passed<T, D::Base>|
                self.accepts(base) && (forall|v: T| #[trigger]
                    self.delivers(base, Some(v)) ==> f.requires((&v,))) ==> #[trigger] r.accepts(
                    Passed::Boxed(base),
                ),
            forall|base: Passed<T, D::Base>, delivered: Option<T>| #[trigger]
                r.delivers(Passed::Boxed(base), delivered) ==> match delivered {
                    None => self.delivers(base, None) || exists|v: T| #[trigger]
                        self.delivers(base, Some(v)) && f.ensures((&v,), false),
                    Some(v) => self.delivers(base, Some(v)) && f.ensures((&v,), true),
                },
    {
        self.filter_map(
            move |v: T| -> (o: Option<T>)
                requires
                    f.requires((&v,)),
                ensures
                    match o {
                        Some(u) => u == v && f.ensures((&v,), true),
                        None => f.ensures((&v,), false),
                    }
                {
                    if f(&v) {
                        Some(v)
                    } else {
                        None
                    }
                },
        )
    }
}

/// A receiver that filters and transforms the messages of another receiver.
#[verifier::reject_recursive_types(T)]
pub struct FilterMapReceiver<F, T, D> {
    pub f: F,
    pub receiver: Receiver<T, D>,
}

impl<F: Fn(T) -> Option<U>, U, T, D: DynReceiver<T>> DynReceiver<U> for FilterMapReceiver<F, T, D> {
    type Base = Passed<T, D::Base>;

    open spec fn accepts(&self, base: Passed<T, D::Base>) -> bool {
        &&& self.receiver.accepts(base)
        &&& forall|v: T| #[trigger]
            self.receiver.delivers(base, Some(v)) ==> self.f.requires((v,))
    }

    open spec fn delivers(&self, base: Passed<T, D::Base>, delivered: Option<U>) -> bool {
        ||| delivered is None && self.receiver.delivers(base, None)
        ||| exists|v: T| #[trigger]
            self.receiver.delivers(base, Some(v)) && self.f.ensures((v,), delivered)
    }

    fn deliver(&self, base: Passed<T, D::Base>) -> (r: Option<U>) {
        match self.receiver.deliver(base) {
            Some(v) => (self.f)(v),
            None => None,
        }
    }
}

/// What receiving comes to when a message arrives.
#[derive(Debug)]
pub enum RecvStep<T> {
    /// The message was dropped: wait for the next one.
    Again,
    /// This is the result.
    Return(Result<Option<T>, RecvError>),
}

impl<F, T, D> FilterMapReceiver<F, T, D> {
    /// Takes what the receiver below gave. A message that is dropped is passed over.
    pub fn on_recv<U>(&self, res: Result<Option<T>, RecvError>) -> (step: RecvStep<U>) where
        F: Fn(T) -> Option<U>,

        requires
            res matches Ok(Some(msg)) ==> self.f.requires((msg,)),
        ensures
            match res {
                Ok(Some(msg)) => match step {
                    RecvStep::Again => self.f.ensures((msg,), None),
                    RecvStep::Return(r) => r matches Ok(Some(v)) && self.f.ensures(
                        (msg,),
                        Some(v),
                    ),
                },
                Ok(None) => step == RecvStep::<U>::Return(Ok(None)),
                Err(e) => step == RecvStep::<U>::Return(Err(e)),
            },
    {
        match res {
            Ok(Some(msg)) => match (self.f)(msg) {
                Some(v) => RecvStep::Return(Ok(Some(v))),
                None => RecvStep::Again,
            },
            Ok(None) => RecvStep::Return(Ok(None)),
            Err(e) => RecvStep::Return(Err(e)),
        }
    }
}

/// Create a local mpsc sender and receiver pair, with the given buffer size.
///
/// They are the two halves of one tokio channel.
pub fn channel<T, D, E>(buffer: usize) -> (r: (Sender<T, D>, Receiver<T, E>))
    requires
        0 < buffer <= usize::MAX >> 3,
    ensures
        r.0 matches Sender::Tokio(tx) && r.1 matches Receiver::Tokio(rx) && call_ensures(
            tokio_channel::<T>,
            (buffer,),
            (tx, rx),
        ),
{
    let (tx, rx) = tokio_channel(buffer);
    (Sender::Tokio(tx), Receiver::Tokio(rx))
}

/// Transforms apply in the reverse order of that in which they were put on a sender: the message
/// goes through the outer one first, and what comes out of it goes through the inner one.
pub proof fn law_outer_transform_first<F, G, U, V, T, D>(
    outer: FilterMapSender<F, V, FilterMapSender<G, T, D>>,
    inner: FilterMapSender<G, T, D>,
    value: U,
    base: Passed<T, D::Base>,
) where F: Fn(U) -> Option<V>, G: Fn(V) -> Option<T>, D: DynSender<T>
    requires
        outer.sender matches Sender::Boxed(boxed) && *boxed == inner,
    ensures
        outer.passes(value, Some(Passed::Boxed(base))) <==> exists|v: V, t: T|
            #![trigger inner.f.ensures((v,), Some(t)), inner.sender.passes(t, Some(base))]
            outer.f.ensures((value,), Some(v)) && inner.f.ensures((v,), Some(t))
                && inner.sender.passes(t, Some(base)),
{
    if outer.passes(value, Some(Passed::Boxed(base))) {
        let v = choose|v: V| #[trigger]
            outer.f.ensures((value,), Some(v)) && outer.sender.passes(v, Some(Passed::Boxed(base)));
        assert(inner.passes(v, Some(base)));
        let t = choose|t: T| #[trigger]
            inner.f.ensures((v,), Some(t)) && inner.sender.passes(t, Some(base));
        assert(inner.f.ensures((v,), Some(t)) && inner.sender.passes(t, Some(base)));
    }
    if exists|v: V, t: T|
        #![trigger inner.f.ensures((v,), Some(t)), inner.sender.passes(t, Some(base))]
        outer.f.ensures((value,), Some(v)) && inner.f.ensures((v,), Some(t))
            && inner.sender.passes(t, Some(base)) {
        let (v, t) = choose|v: V, t: T|
            #![trigger inner.f.ensures((v,), Some(t)), inner.sender.passes(t, Some(base))]
            outer.f.ensures((value,), Some(v)) && inner.f.ensures((v,), Some(t))
                && inner.sender.passes(t, Some(base));
        assert(inner.passes(v, Some(base)));
        assert(outer.sender.passes(v, Some(Passed::Boxed(base))));
    }
}

/// The messages that a filtering receiver delivers, for a filter that is a function, out of those
/// that arrive.
pub open spec fn filter_mapped<T, U>(f: spec_fn(T) -> Option<U>, messages: Seq<T>) -> Seq<U>
    decreases messages.len(),
{
    if messages.len() == 0 {
        Seq::empty()
    } else {
        match f(messages[0]) {
            Some(v) => seq![v] + filter_mapped(f, messages.drop_first()),
            None => filter_mapped(f, messages.drop_first()),
        }
    }
}

impl<F, T, D> FilterMapReceiver<F, T, D> {
    /// The messages that are delivered out of those that have arrived.
    pub fn recv_from<U>(&self, arrived: Vec<T>) -> (r: Vec<U>) where F: Fn(T) -> Option<U>
        requires
            forall|i: int| 0 <= i < arrived.len() ==> self.f.requires((#[trigger] arrived[i],)),
        ensures
            forall|g: spec_fn(T) -> Option<U>|
                (forall|m: T, o: Option<U>| #[trigger] self.f.ensures((m,), o) ==> o == g(m))
                    ==> r@ == #[trigger] filter_mapped(g, arrived@),
    {
        let ghost all = arrived@;
        let mut left = arrived;
        let mut out: Vec<U> = Vec::new();
        proof {
            assert forall|g: spec_fn(T) -> Option<U>| #[trigger]
                filter_mapped(g, all) == out@ + filter_mapped(g, left@) by {
                assert(out@ + filter_mapped(g, left@) =~= filter_mapped(g, left@));
            }
        }
        while left.len() > 0
            invariant
                all == arrived@,
                forall|i: int| 0 <= i < left.len() ==> self.f.requires((#[trigger] left[i],)),
                forall|g: spec_fn(T) -> Option<U>|
                    (forall|m: T, o: Option<U>| #[trigger] self.f.ensures((m,), o) ==> o == g(m))
                        ==> #[trigger] filter_mapped(g, all) == out@ + filter_mapped(g, left@),
            decreases left.len(),
        {
            let ghost here = left@;
            assert(self.f.requires((left[0],)));
            let msg = left.remove(0);
            let ghost before = out@;
            let ghost first = msg;
            assert(left@ =~= here.drop_first());
            assert forall|i: int| 0 <= i < left.len() implies self.f.requires(
                (#[trigger] left[i],),
            ) by {
                assert(left[i] == here[i + 1]);
            }
            match self.on_recv::<U>(Ok(Some(msg))) {
                RecvStep::Again => {},
                RecvStep::Return(Ok(Some(v))) => {
                    out.push(v);
                },
                RecvStep::Return(_) => {},
            }
            proof {
                assert forall|g: spec_fn(T) -> Option<U>|
                    (forall|m: T, o: Option<U>| #[trigger]
                        self.f.ensures((m,), o) ==> o == g(m)) implies #[trigger] filter_mapped(
                    g,
                    all,
                ) == out@ + filter_mapped(g, left@) by {
                    match g(first) {
                        Some(v) => {
                            assert(out@ =~= before.push(v));
                            assert(before + (seq![v] + filter_mapped(g, left@)) =~= out@
                                + filter_mapped(g, left@));
                        },
                        None => {
                            assert(out@ =~= before);
                        },
                    }
                }
            }
        }
        proof {
            assert forall|g: spec_fn(T) -> Option<U>|
                (forall|m: T, o: Option<U>| #[trigger] self.f.ensures((m,), o) ==> o == g(m)) implies
                out@ == #[trigger] filter_mapped(g, all) by {
                assert(filter_mapped(g, left@) =~= Seq::empty());
                assert(out@ + Seq::<U>::empty() =~= out@);
            }
        }
        out
    }
}

impl RecvError {
    /// What went wrong, in words.
    pub open spec fn text_spec(self) -> Seq<char> {
        match self {
            RecvError::MaxMessageSizeExceeded => "Maximum message size exceeded"@,
            RecvError::Io { .. } => "Io error"@,
        }
    }

    /// What went wrong, in words.
    pub fn text(&self) -> (r: &'static str)
        ensures
            r@ == self.text_spec(),
    {
        match self {
            RecvError::MaxMessageSizeExceeded => "Maximum message size exceeded",
            RecvError::Io { .. } => "Io error",
        }
    }
}

/// An I/O error stays what it is, and a message that is too large is invalid data.
pub proof fn law_recv_errors(e: RecvError)
    ensures
        e matches RecvError::Io { source } ==> e.io_error() == source,
        e is MaxMessageSizeExceeded ==> e.io_error().kind == ErrorKind::InvalidData
            && e.io_error().cause == IoCause::MaxMessageSizeExceeded,
{
}

/// A full channel is no error: the message was just not sent. A closed one is.
pub proof fn law_try_send(sent: TrySent)
    ensures
        try_sent_spec(sent) == Ok::<bool, SendError>(true) <==> sent is Sent,
        try_sent_spec(sent) == Ok::<bool, SendError>(false) <==> sent is Full,
        try_sent_spec(sent) == Err::<bool, _>(SendError::ReceiverClosed) <==> sent is Closed,
{
}

/// A sender or a receiver without filters lets every message through as it is. A sender is remote
/// exactly if it goes over a stream.
pub proof fn law_messages_pass_unchanged<T, W>(
    tx: TokioSender<T>,
    sink: RemoteSink<W>,
    source: RemoteSource<W>,
    value: T,
    out: Option<T>,
)
    ensures
        ({
            let local = Sender::<T, RemoteSink<W>>::Tokio(tx);
            let remote = Sender::<T, RemoteSink<W>>::Boxed(Arc::new(sink));
            &&& local.accepts(value) && remote.accepts(value)
            &&& local.passes(value, Some(Passed::Tokio(value))) && !local.passes(value, None)
            &&& remote.passes(value, Some(Passed::Boxed(value))) && !remote.passes(value, None)
            &&& forall|p| #[trigger] local.passes(value, p) ==> p == Some(
                Passed::<T, T>::Tokio(value),
            )
            &&& forall|p| #[trigger] remote.passes(value, p) ==> p == Some(
                Passed::<T, T>::Boxed(value),
            )
            &&& !local.remote() && remote.remote()
        }),
        DynSender::<T>::passes(&sink, value, out) <==> out == Some(value),
        DynReceiver::<T>::delivers(&source, value, out) <==> out == Some(value),
{
}

/// What comes of a message that is sent through a filter: it is dropped if the filter drops it, and
/// else what the filter makes of it goes to the sender below. A filter does not change where the
/// messages go.
pub proof fn law_filtered_messages<F, U, T, D>(
    filter: FilterMapSender<F, T, D>,
    value: U,
    passed: Option<Passed<T, D::Base>>,
) where F: Fn(U) -> Option<T>, D: DynSender<T>
    ensures
        filter.passes(value, passed) ==> (passed is None && filter.f.ensures((value,), None)) || (
        exists|v: T| #[trigger]
            filter.f.ensures((value,), Some(v)) && filter.sender.passes(v, passed)),
        filter.f.ensures((value,), None) ==> filter.passes(value, None),
        forall|v: T| #[trigger]
            filter.f.ensures((value,), Some(v)) && filter.sender.passes(v, passed)
                ==> filter.passes(value, passed),
        filter.remote() == filter.sender.remote(),
{
}

/// What comes of a message that is received through a filter: it is dropped if the receiver below
/// drops it or if the filter does, and else what the filter makes of it is delivered.
pub proof fn law_filtered_receipt<F, U, T, D>(
    filter: FilterMapReceiver<F, T, D>,
    base: Passed<T, D::Base>,
    delivered: Option<U>,
) where F: Fn(T) -> Option<U>, D: DynReceiver<T>
    ensures
        filter.delivers(base, delivered) ==> (delivered is None && filter.receiver.delivers(
            base,
            None,
        )) || (exists|v: T| #[trigger]
            filter.receiver.delivers(base, Some(v)) && filter.f.ensures((v,), delivered)),
        filter.receiver.delivers(base, None) ==> DynReceiver::<U>::delivers(&filter, base, None),
        forall|v: T| #[trigger]
            filter.receiver.delivers(base, Some(v)) && filter.f.ensures((v,), delivered)
                ==> filter.delivers(base, delivered),
{
}

/// A receiver that filters a sequence of messages delivers each one that passes, in order, and nothing
/// else: receiving two sequences one after the other is receiving both of them together.
pub proof fn law_filtering_a_sequence<T, U>(
    f: spec_fn(T) -> Option<U>,
    first: Seq<T>,
    second: Seq<T>,
    message: T,
)
    ensures
        filter_mapped(f, first + second) == filter_mapped(f, first) + filter_mapped(f, second),
        filter_mapped(f, seq![message]) == match f(message) {
            Some(v) => seq![v],
            None => Seq::empty(),
        },
        filter_mapped(f, Seq::<T>::empty()) == Seq::<U>::empty(),
    decreases first.len(),
{
    assert(seq![message].drop_first() =~= Seq::<T>::empty());
    assert(filter_mapped(f, Seq::<T>::empty()) == Seq::<U>::empty());
    assert(seq![message][0] == message);
    if f(message) is Some {
        assert(seq![f(message)->0] + Seq::<U>::empty() =~= seq![f(message)->0]);
    }
    if first.len() == 0 {
        assert(first + second =~= second);
        assert(Seq::<U>::empty() + filter_mapped(f, second) =~= filter_mapped(f, second));
    } else {
        law_filtering_a_sequence(f, first.drop_first(), second, message);
        assert((first + second).drop_first() =~= first.drop_first() + second);
        assert(filter_mapped(f, first + second) =~= filter_mapped(f, first) + filter_mapped(
            f,
            second,
        ));
    }
}

/// A receiver without filters hands out every message that reaches it, as it is, and takes messages only
/// from where it receives.
pub proof fn law_messages_are_received_unchanged<T, W>(
    rx: TokioReceiver<T>,
    source: RemoteSource<W>,
    value: T,
    out: Option<T>,
)
    ensures
        ({
            let local = Receiver::<T, RemoteSource<W>>::Tokio(rx);
            let remote = Receiver::<T, RemoteSource<W>>::Boxed(Box::new(source));
            &&& local.accepts(Passed::Tokio(value)) && !local.accepts(Passed::Boxed(value))
            &&& remote.accepts(Passed::Boxed(value)) && !remote.accepts(Passed::Tokio(value))
            &&& local.delivers(Passed::Tokio(value), out) <==> out == Some(value)
            &&& remote.delivers(Passed::Boxed(value), out) <==> out == Some(value)
        }),
{
}

/// Sending into a local channel fails exactly if the channel refuses the message, and then the receiver is
/// gone.
pub proof fn law_local_send<V>(res: Result<(), V>, r: Result<(), SendError>)
    requires
        call_ensures(local_sent::<V>, (res,), r),
    ensures
        r is Ok <==> res is Ok,
        r matches Err(e) ==> e is ReceiverClosed,
{
}

} // verus!
