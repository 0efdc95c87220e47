//! Clients, and the requests that they send.
pub mod call;

use crate::channel::mpsc;
use crate::channel::none::{NoReceiver, NoSender};
use crate::channel::oneshot;
use crate::sealed::Sealed;
use std::marker::PhantomData;
use tokio::sync::mpsc::Sender as TokioSender;
use tracing::Span;
use vstd::prelude::*;
use vstd::std_specs::convert::FromSpec;

verus! {

/// Requirements for a RPC message.
///
/// Even when just using local channels, messages have to be such that they could go over the wire.
pub trait RpcMessage: Send + Sync + 'static {

}

impl<T: Send + Sync + 'static> RpcMessage for T {

}

/// Trait for a service.
///
/// A service acts as a scope for defining the tx and rx channels for each message type, and
/// provides some type safety when sending messages.
pub trait Service: Sized {
    /// Message enum for this protocol.
    type Message;

    /// Whether this protocol includes span context in the wire format.
    ///
    /// When `true`, a message goes over the wire behind its span context.
    const SPAN_PROPAGATION: bool = false;
}

/// Sealed marker trait for a sender.
pub trait Sender: Sealed {

}

/// Sealed marker trait for a receiver.
pub trait Receiver: Sealed {

}

impl Sender for NoSender {

}

impl Receiver for NoReceiver {

}

impl<T, D> Sender for mpsc::Sender<T, D> {

}

impl<T, D> Receiver for mpsc::Receiver<T, D> {

}

impl<T, D> Sender for oneshot::Sender<T, D> {

}

impl<T, B> Receiver for oneshot::Receiver<T, B> {

}

/// Trait to specify channels for a message and service.
pub trait Channels<S: Service> {
    /// The sender type, can be either mpsc, oneshot or none.
    type Tx: Sender;

    /// The receiver type, can be either mpsc, oneshot or none.
    type Rx: Receiver;
}

/// A tracing span.
#[verifier::external_type_specification]
#[verifier::external_body]
pub struct ExSpan(Span);

/// `tracing::Span::current`: the span that the running code is in. It depends on the subscriber, so
/// nothing is claimed of it.
pub assume_specification[ Span::current ]() -> (r: Span);

/// A message with channels to send and receive it.
///
/// This expands the protocol message to a full message that includes the active and unserializable
/// channels.
#[verifier::reject_recursive_types(I)]
#[verifier::reject_recursive_types(S)]
pub struct WithChannels<I: Channels<S>, S: Service> {
    /// The inner message.
    pub inner: I,
    /// The return channel to send the response to.
    pub tx: <I as Channels<S>>::Tx,
    /// The request channel to receive the request from.
    pub rx: <I as Channels<S>>::Rx,
    /// The current span where the full message was created.
    pub span: Span,
}

impl<I: Channels<S>, S: Service> WithChannels<I, S> {
    /// A message with both a tx and a rx channel.
    pub fn new(inner: I, tx: <I as Channels<S>>::Tx, rx: <I as Channels<S>>::Rx) -> (r: Self)
        ensures
            r.inner == inner,
            r.tx == tx,
            r.rx == rx,
            call_ensures(Span::current, (), r.span),
    {
        WithChannels { inner, tx, rx, span: Span::current() }
    }

    /// Get the parent span.
    pub fn parent_span_opt(&self) -> (r: Option<&Span>)
        ensures
            r == Some(&self.span),
    {
        Some(&self.span)
    }

    /// The inner message.
    pub fn deref(&self) -> (r: &I)
        ensures
            *r == self.inner,
    {
        &self.inner
    }
}

impl<I: Channels<S, Rx = NoReceiver>, S: Service> WithChannels<I, S> {
    /// A message with a tx channel only.
    pub fn with_tx(inner: I, tx: <I as Channels<S>>::Tx) -> (r: Self)
        ensures
            r.inner == inner,
            r.tx == tx,
            r.rx == NoReceiver,
            call_ensures(Span::current, (), r.span),
    {
        WithChannels { inner, tx, rx: NoReceiver, span: Span::current() }
    }
}

impl<I: Channels<S, Tx = NoSender, Rx = NoReceiver>, S: Service> WithChannels<I, S> {
    /// A message without channels.
    pub fn without_channels(inner: I) -> (r: Self)
        ensures
            r.inner == inner,
            r.tx == NoSender,
            r.rx == NoReceiver,
            call_ensures(Span::current, (), r.span),
    {
        WithChannels { inner, tx: NoSender, rx: NoReceiver, span: Span::current() }
    }
}

/// For the case where you want both tx and rx channels.
impl<I: Channels<S>, S: Service, Tx, Rx> From<(I, Tx, Rx)> for WithChannels<I, S> where <I as Channels<S>>::Tx: From<Tx>, <I as Channels<S>>::Rx: From<Rx> {
    fn from(parts: (I, Tx, Rx)) -> (r: Self)
        ensures
            r.inner == parts.0,
            call_ensures(<I as Channels<S>>::Tx::from, (parts.1,), r.tx),
            call_ensures(<I as Channels<S>>::Rx::from, (parts.2,), r.rx),
            call_ensures(Span::current, (), r.span),
    {
        let (inner, tx, rx) = parts;
        let tx = <I as Channels<S>>::Tx::from(tx);
        let rx = <I as Channels<S>>::Rx::from(rx);
        WithChannels::new(inner, tx, rx)
    }
}

impl<I: Channels<S>, S: Service, Tx, Rx> vstd::std_specs::convert::FromSpecImpl<(I, Tx, Rx)> for WithChannels<I, S> where <I as Channels<S>>::Tx: From<Tx>, <I as Channels<S>>::Rx: From<Rx> {
    open spec fn obeys_from_spec() -> bool {
        false
    }

    open spec fn from_spec(parts: (I, Tx, Rx)) -> Self {
        arbitrary()
    }
}

/// For the very common case where you just need a tx channel to send the response to.
impl<I: Channels<S, Rx = NoReceiver>, S: Service, Tx> From<(I, Tx)> for WithChannels<I, S> where <I as Channels<S>>::Tx: From<Tx> {
    fn from(parts: (I, Tx)) -> (r: Self)
        ensures
            r.inner == parts.0,
            call_ensures(<I as Channels<S>>::Tx::from, (parts.1,), r.tx),
            r.rx == NoReceiver,
            call_ensures(Span::current, (), r.span),
    {
        let (inner, tx) = parts;
        let tx = <I as Channels<S>>::Tx::from(tx);
        WithChannels::with_tx(inner, tx)
    }
}

impl<I: Channels<S, Rx = NoReceiver>, S: Service, Tx> vstd::std_specs::convert::FromSpecImpl<(I, Tx)> for WithChannels<I, S> where <I as Channels<S>>::Tx: From<Tx> {
    open spec fn obeys_from_spec() -> bool {
        false
    }

    open spec fn from_spec(parts: (I, Tx)) -> Self {
        arbitrary()
    }
}

/// For a message without channels.
impl<I: Channels<S, Tx = NoSender, Rx = NoReceiver>, S: Service> From<(I,)> for WithChannels<I, S> {
    fn from(parts: (I,)) -> (r: Self)
        ensures
            r.inner == parts.0,
            r.tx == NoSender,
            r.rx == NoReceiver,
            call_ensures(Span::current, (), r.span),
    {
        let (inner,) = parts;
        WithChannels::without_channels(inner)
    }
}

impl<I: Channels<S, Tx = NoSender, Rx = NoReceiver>, S: Service> vstd::std_specs::convert::FromSpecImpl<(I,)> for WithChannels<I, S> {
    open spec fn obeys_from_spec() -> bool {
        false
    }

    open spec fn from_spec(parts: (I,)) -> Self {
        arbitrary()
    }
}

/// Where the requests of a client go.
#[verifier::reject_recursive_types(M)]
pub enum ClientInner<M, R, D> {
    Local(mpsc::Sender<M, D>),
    Remote(R),
}

/// A client to the service `S`, over a remote connection of type `R`, or a local sender.
#[verifier::reject_recursive_types(S)]
pub struct Client<S: Service, R, D = mpsc::RemoteSink<()>>(
    pub ClientInner<S::Message, R, D>,
    pub PhantomData<S>,
);

/// A local sender for the service `S`.
///
/// This is a wrapper around an in-memory channel.
#[verifier::reject_recursive_types(S)]
pub struct LocalSender<S: Service, D = mpsc::RemoteSink<()>>(pub mpsc::Sender<S::Message, D>);

/// A request to a service. This can be either local or remote.
#[derive(Debug)]
pub enum Request<L, R> {
    /// Local in memory request.
    Local(L),
    /// Remote cross process request.
    Remote(R),
}

impl<S: Service, D> Clone for LocalSender<S, D> {
    fn clone(&self) -> (r: Self)
        ensures
            r == *self,
    {
        LocalSender(self.0.clone())
    }
}

impl<S: Service, D> From<mpsc::Sender<S::Message, D>> for LocalSender<S, D> {
    fn from(tx: mpsc::Sender<S::Message, D>) -> (r: Self) {
        LocalSender(tx)
    }
}

impl<S: Service, D> vstd::std_specs::convert::FromSpecImpl<mpsc::Sender<S::Message, D>> for LocalSender<S, D> {
    open spec fn obeys_from_spec() -> bool {
        true
    }

    open spec fn from_spec(tx: mpsc::Sender<S::Message, D>) -> Self {
        LocalSender(tx)
    }
}

impl<S: Service, D> From<TokioSender<S::Message>> for LocalSender<S, D> {
    fn from(tx: TokioSender<S::Message>) -> (r: Self) {
        LocalSender(mpsc::Sender::Tokio(tx))
    }
}

impl<S: Service, D> vstd::std_specs::convert::FromSpecImpl<TokioSender<S::Message>> for LocalSender<S, D> {
    open spec fn obeys_from_spec() -> bool {
        true
    }

    open spec fn from_spec(tx: TokioSender<S::Message>) -> Self {
        LocalSender(mpsc::Sender::Tokio(tx))
    }
}

impl<S: Service, R, D> From<LocalSender<S, D>> for Client<S, R, D> {
    fn from(tx: LocalSender<S, D>) -> (r: Self) {
        Client(ClientInner::Local(tx.0), PhantomData)
    }
}

impl<S: Service, R, D> vstd::std_specs::convert::FromSpecImpl<LocalSender<S, D>> for Client<S, R, D> {
    open spec fn obeys_from_spec() -> bool {
        true
    }

    open spec fn from_spec(tx: LocalSender<S, D>) -> Self {
        Client(ClientInner::Local(tx.0), PhantomData)
    }
}

impl<S: Service, R, D> From<mpsc::Sender<S::Message, D>> for Client<S, R, D> {
    fn from(tx: mpsc::Sender<S::Message, D>) -> (r: Self) {
        Client(ClientInner::Local(tx), PhantomData)
    }
}

impl<S: Service, R, D> vstd::std_specs::convert::FromSpecImpl<mpsc::Sender<S::Message, D>> for Client<S, R, D> {
    open spec fn obeys_from_spec() -> bool {
        true
    }

    open spec fn from_spec(tx: mpsc::Sender<S::Message, D>) -> Self {
        Client(ClientInner::Local(tx), PhantomData)
    }
}

impl<S: Service, R, D> From<TokioSender<S::Message>> for Client<S, R, D> {
    fn from(tx: TokioSender<S::Message>) -> (r: Self) {
        Client(ClientInner::Local(mpsc::Sender::Tokio(tx)), PhantomData)
    }
}

impl<S: Service, R, D> vstd::std_specs::convert::FromSpecImpl<TokioSender<S::Message>> for Client<S, R, D> {
    open spec fn obeys_from_spec() -> bool {
        true
    }

    open spec fn from_spec(tx: TokioSender<S::Message>) -> Self {
        Client(ClientInner::Local(mpsc::Sender::Tokio(tx)), PhantomData)
    }
}

impl<M, R: Clone, D> Clone for ClientInner<M, R, D> {
    fn clone(&self) -> (r: Self)
        ensures
            match (*self, r) {
                (ClientInner::Local(tx), ClientInner::Local(other)) => other == tx,
                (ClientInner::Remote(conn), ClientInner::Remote(other)) => cloned(conn, other),
                _ => false,
            },
    {
        match self {
            ClientInner::Local(tx) => ClientInner::Local(tx.clone()),
            ClientInner::Remote(conn) => ClientInner::Remote(conn.clone()),
        }
    }
}

impl<S: Service, R: Clone, D> Clone for Client<S, R, D> {
    fn clone(&self) -> (r: Self)
        ensures
            match (self.0, r.0) {
                (ClientInner::Local(tx), ClientInner::Local(other)) => other == tx,
                (ClientInner::Remote(conn), ClientInner::Remote(other)) => cloned(conn, other),
                _ => false,
            },
    {
        Client(self.0.clone(), PhantomData)
    }
}

impl<S: Service, R, D> Client<S, R, D> {
    /// Create a new client from a remote connection.
    pub fn boxed(remote: R) -> (r: Self)
        ensures
            r.0 == ClientInner::<S::Message, R, D>::Remote(remote),
    {
        Client(ClientInner::Remote(remote), PhantomData)
    }

    /// Creates a new client from a local sender.
    pub fn local(tx: impl Into<mpsc::Sender<S::Message, D>>) -> (r: Self)
        ensures
            r.0 matches ClientInner::Local(sender) && call_ensures(
                Into::<mpsc::Sender<S::Message, D>>::into,
                (tx,),
                sender,
            ),
    {
        let tx: mpsc::Sender<S::Message, D> = tx.into();
        Client(ClientInner::Local(tx), PhantomData)
    }

    /// Get the local sender. This is useful if you don't care about remote requests.
    pub fn as_local(&self) -> (r: Option<LocalSender<S, D>>)
        ensures
            r == match self.0 {
                ClientInner::Local(tx) => Some(LocalSender::<S, D>(tx)),
                ClientInner::Remote(_) => None,
            },
    {
        match &self.0 {
            ClientInner::Local(tx) => Some(LocalSender(tx.clone())),
            ClientInner::Remote(_) => None,
        }
    }

    /// Start a request: the sender of a local service, or the connection to open a stream pair on.
    pub fn request(&self) -> (r: Request<LocalSender<S, D>, &R>)
        ensures
            r == match self.0 {
                ClientInner::Local(tx) => Request::Local(LocalSender::<S, D>(tx)),
                ClientInner::Remote(connection) => Request::Remote(&connection),
            },
    {
        match &self.0 {
            ClientInner::Local(tx) => Request::Local(LocalSender(tx.clone())),
            ClientInner::Remote(connection) => Request::Remote(connection),
        }
    }
}

/// A client of a local service sends to the sender that it was made from, however it was made.
pub proof fn law_local_clients<S: Service, R, D>(
    tx: mpsc::Sender<S::Message, D>,
    local: LocalSender<S, D>,
    tokio: TokioSender<S::Message>,
)
    ensures
        <LocalSender<S, D> as FromSpec<mpsc::Sender<S::Message, D>>>::from_spec(tx).0 == tx,
        <LocalSender<S, D> as FromSpec<TokioSender<S::Message>>>::from_spec(tokio).0
            == mpsc::Sender::<S::Message, D>::Tokio(tokio),
        <Client<S, R, D> as FromSpec<LocalSender<S, D>>>::from_spec(local).0 == ClientInner::<
            S::Message,
            R,
            D,
        >::Local(local.0),
        <Client<S, R, D> as FromSpec<mpsc::Sender<S::Message, D>>>::from_spec(tx).0 == ClientInner::<
            S::Message,
            R,
            D,
        >::Local(tx),
        <Client<S, R, D> as FromSpec<TokioSender<S::Message>>>::from_spec(tokio).0 == ClientInner::<
            S::Message,
            R,
            D,
        >::Local(mpsc::Sender::Tokio(tokio)),
{
}

} // verus!
