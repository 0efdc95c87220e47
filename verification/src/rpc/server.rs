//! Accepting connections, and reading requests from them.
use crate::channel::{mpsc, SendError};
use crate::error::{ConnectionError, ErrorKind, IoCause, IoError};
use crate::rpc::receive::{no_size_spec, with_kind_spec};
use crate::rpc::{ERROR_CODE_MAX_MESSAGE_SIZE_EXCEEDED, MAX_MESSAGE_SIZE};
use crate::util::framing::{
    body_read, frame_bytes, lemma_frame_prefix, parsed, read_exact, skip, OnSize,
};
use crate::util::varint::{lemma_consumed_len, read_varint_u64, varint_consumed, varint_read};
use vstd::prelude::*;

verus! {

/// What waiting for the stream pair of the next request leads to.
#[derive(Debug)]
pub enum OnAccept<P> {
    /// Read the request from this stream pair.
    Read(P),
    /// There are no more requests: the peer has closed the connection in an orderly way.
    Closed,
    /// Fail with this error.
    Fail(IoError),
}

/// What [`accepted`] decides.
pub open spec fn accepted_spec<P>(res: Result<P, ConnectionError>) -> OnAccept<P> {
    match res {
        Ok(pair) => OnAccept::Read(pair),
        Err(cause) => if cause matches ConnectionError::ApplicationClosed { code, .. } && code == 0 {
            OnAccept::Closed
        } else {
            OnAccept::Fail(cause.io_error())
        },
    }
}

/// Decides what waiting for the stream pair of the next request leads to.
pub fn accepted<P>(res: Result<P, ConnectionError>) -> (r: OnAccept<P>)
    ensures
        r == accepted_spec(res),
{
    match res {
        Ok(pair) => OnAccept::Read(pair),
        Err(ConnectionError::ApplicationClosed { code, .. }) if code == 0 => OnAccept::Closed,
        Err(cause) => OnAccept::Fail(IoError::from(cause)),
    }
}

/// What [`request_size`] decides.
pub open spec fn request_size_spec(read: Result<Option<u64>, IoError>) -> OnSize<IoError> {
    match read {
        Err(e) => OnSize::Fail(e),
        Ok(None) => OnSize::Fail(no_size_spec()),
        Ok(Some(size)) => if size > MAX_MESSAGE_SIZE {
            OnSize::Refuse {
                code: ERROR_CODE_MAX_MESSAGE_SIZE_EXCEEDED,
                error: mpsc::RecvError::MaxMessageSizeExceeded.io_error(),
            }
        } else {
            OnSize::Read(size as usize)
        },
    }
}

/// The reason that goes with the code when a connection is closed over the size of a request.
pub const REQUEST_TOO_LARGE: &'static str = "request exceeded max message size";

/// Decides what follows the size of a request.
///
/// A refused request closes the whole connection, with [`REQUEST_TOO_LARGE`] as the reason.
pub fn request_size(read: Result<Option<u64>, IoError>) -> (r: OnSize<IoError>)
    ensures
        r == request_size_spec(read),
{
    match read {
        Err(e) => OnSize::Fail(e),
        Ok(None) => OnSize::Fail(
            IoError { kind: ErrorKind::UnexpectedEof, cause: IoCause::ReadSize },
        ),
        Ok(Some(size)) => if size > MAX_MESSAGE_SIZE {
            OnSize::Refuse {
                code: ERROR_CODE_MAX_MESSAGE_SIZE_EXCEEDED,
                error: IoError::from(mpsc::RecvError::MaxMessageSizeExceeded),
            }
        } else {
            OnSize::Read(size as usize)
        },
    }
}

/// What reading the bytes of a request leads to.
pub fn request_body(read: Result<Vec<u8>, IoError>) -> (r: Result<Vec<u8>, IoError>)
    ensures
        r == match read {
            Ok(buf) => Ok(buf),
            Err(e) => Err(with_kind_spec(ErrorKind::UnexpectedEof, e)),
        },
{
    match read {
        Ok(buf) => Ok(buf),
        Err(e) => Err(IoError { kind: ErrorKind::UnexpectedEof, cause: e.cause }),
    }
}

/// What deserializing a request gave.
///
/// A service that propagates spans has the span context in front of the message.
#[derive(Debug)]
pub enum Parsed<S, C> {
    Plain(Result<S, String>),
    WithSpan(Result<(Option<C>, S), String>),
}

/// The request and its span context. There is a span context exactly if the service propagates
/// spans and the remote sent one.
pub fn request_message<S, C>(res: Parsed<S, C>) -> (r: Result<(S, Option<C>), IoError>)
    ensures
        r == match res {
            Parsed::Plain(Ok(msg)) => Ok((msg, None)),
            Parsed::WithSpan(Ok((carrier, msg))) => Ok((msg, carrier)),
            Parsed::Plain(Err(message)) | Parsed::WithSpan(Err(message)) => Err::<
                (S, Option<C>),
                _,
            >(IoError { kind: ErrorKind::InvalidData, cause: IoCause::Outside { message } }),
        },
{
    match res {
        Parsed::Plain(res) => match parsed(res) {
            Ok(msg) => Ok((msg, None)),
            Err(e) => Err(e),
        },
        Parsed::WithSpan(res) => match parsed(res) {
            Ok((carrier, msg)) => Ok((msg, carrier)),
            Err(e) => Err(e),
        },
    }
}

/// The bytes of a request, or what else reading it comes to.
#[derive(Debug)]
pub enum RequestRead {
    /// These bytes are the serialized request.
    Body(Vec<u8>),
    /// Close the connection with this code and fail with this error.
    Refuse { code: u32, error: IoError },
    /// Fail with this error.
    Fail(IoError),
}

/// A [`RequestRead`] over a sequence of bytes.
pub enum RequestReadSpec {
    Body(Seq<u8>),
    Refuse { code: u32, error: IoError },
    Fail(IoError),
}

impl View for RequestRead {
    type V = RequestReadSpec;

    open spec fn view(&self) -> RequestReadSpec {
        match *self {
            RequestRead::Body(body) => RequestReadSpec::Body(body@),
            RequestRead::Refuse { code, error } => RequestReadSpec::Refuse { code, error },
            RequestRead::Fail(e) => RequestReadSpec::Fail(e),
        }
    }
}

/// What reading a request from a stream that holds exactly `bytes` comes to.
pub open spec fn request_received(bytes: Seq<u8>) -> RequestReadSpec {
    match request_size_spec(varint_read(bytes)) {
        OnSize::End => RequestReadSpec::Fail(no_size_spec()),
        OnSize::Fail(e) => RequestReadSpec::Fail(e),
        OnSize::Refuse { code, error } => RequestReadSpec::Refuse { code, error },
        OnSize::Read(size) => match body_read(bytes.skip(varint_consumed(bytes) as int), size) {
            Ok(body) => RequestReadSpec::Body(body),
            Err(e) => RequestReadSpec::Fail(with_kind_spec(ErrorKind::UnexpectedEof, e)),
        },
    }
}

/// Reads a request from the start of `source`.
pub fn read_request_raw(source: &[u8]) -> (r: RequestRead)
    ensures
        r@ == request_received(source@),
{
    let (read, consumed) = read_varint_u64(source);
    proof {
        lemma_consumed_len(source@);
    }
    match request_size(read) {
        OnSize::End => RequestRead::Fail(
            IoError { kind: ErrorKind::UnexpectedEof, cause: IoCause::ReadSize },
        ),
        OnSize::Fail(e) => RequestRead::Fail(e),
        OnSize::Refuse { code, error } => RequestRead::Refuse { code, error },
        OnSize::Read(size) => match request_body(read_exact(skip(source, consumed), size)) {
            Ok(body) => RequestRead::Body(body),
            Err(e) => RequestRead::Fail(e),
        },
    }
}

/// A request that was written to a stream is read back whole, whatever the client sends after it.
pub proof fn law_request_round_trip(payload: Seq<u8>, rest: Seq<u8>)
    requires
        payload.len() <= MAX_MESSAGE_SIZE,
    ensures
        request_received(frame_bytes(payload) + rest) == RequestReadSpec::Body(payload),
{
    let bytes = frame_bytes(payload) + rest;
    lemma_frame_prefix(payload, rest);
    assert(bytes.skip(varint_consumed(bytes) as int) =~= payload + rest);
    assert((payload + rest).take(payload.len() as int) =~= payload);
}

/// A request above [`MAX_MESSAGE_SIZE`] closes the connection with the code that says so.
pub proof fn law_large_request_is_refused(payload: Seq<u8>, rest: Seq<u8>)
    requires
        MAX_MESSAGE_SIZE < payload.len() <= u64::MAX,
    ensures
        request_received(frame_bytes(payload) + rest) == (RequestReadSpec::Refuse {
            code: ERROR_CODE_MAX_MESSAGE_SIZE_EXCEEDED,
            error: IoError {
                kind: ErrorKind::InvalidData,
                cause: IoCause::MaxMessageSizeExceeded,
            },
        }),
{
    lemma_frame_prefix(payload, rest);
}

/// What a connection does next.
#[derive(Debug)]
pub enum ConnectionStep<R> {
    /// Run the handler on this request.
    Handle(R),
    /// Read the next request.
    ReadNext,
    /// The connection is done with this result.
    Return(Result<(), IoError>),
}

/// What follows reading the next request of a connection.
pub open spec fn step_after_request<R>(read: Result<Option<R>, IoError>) -> ConnectionStep<R> {
    match read {
        Ok(Some(request)) => ConnectionStep::Handle(request),
        Ok(None) => ConnectionStep::Return(Ok(())),
        Err(e) => ConnectionStep::Return(Err(e)),
    }
}

/// What follows handling a request.
pub open spec fn step_after_handler<R>(res: Result<(), SendError>) -> ConnectionStep<R> {
    match res {
        Ok(()) => ConnectionStep::ReadNext,
        Err(e) => ConnectionStep::Return(Err(e.io_error())),
    }
}

/// Takes what reading the next request of a connection gave.
pub fn on_request<R>(read: Result<Option<R>, IoError>) -> (step: ConnectionStep<R>)
    ensures
        step == step_after_request(read),
{
    match read {
        Ok(Some(request)) => ConnectionStep::Handle(request),
        Ok(None) => ConnectionStep::Return(Ok(())),
        Err(e) => ConnectionStep::Return(Err(e)),
    }
}

/// Takes what the handler of a request gave: an error of the handler ends the connection.
pub fn on_handled<R>(res: Result<(), SendError>) -> (step: ConnectionStep<R>)
    ensures
        step == step_after_handler::<R>(res),
{
    match res {
        Ok(()) => ConnectionStep::ReadNext,
        Err(e) => ConnectionStep::Return(Err(IoError::from(e))),
    }
}

/// What happened to a server that listens.
#[derive(Debug)]
pub enum ListenEvent<I> {
    /// The task of a connection has ended.
    TaskEnded,
    /// There is an incoming connection, or `None` if the endpoint was closed.
    Incoming(Option<I>),
}

/// What a server that listens does next.
#[derive(Debug)]
pub enum ListenStep<I> {
    /// Wait for the next event.
    Wait,
    /// Spawn a task for the connection, under this id, and wait for the next event.
    Spawn { id: u64, incoming: I },
    /// Stop listening.
    Stop,
}

/// A server that listens for connections, and numbers them.
#[derive(Debug)]
pub struct Listen {
    request_id: u64,
}

impl View for Listen {
    type V = u64;

    /// The id of the next connection.
    closed spec fn view(&self) -> u64 {
        self.request_id
    }
}

impl Listen {
    /// Before the first connection.
    pub fn new() -> (r: Self)
        ensures
            r@ == 0,
    {
        Listen { request_id: 0 }
    }

    /// The id of the next connection.
    pub fn next_id(&self) -> (r: u64)
        ensures
            r == self@,
    {
        self.request_id
    }

    /// Takes the next event.
    pub fn on_event<I>(&mut self, event: ListenEvent<I>) -> (step: ListenStep<I>)
        requires
            event matches ListenEvent::Incoming(Some(_)) ==> old(self)@ < u64::MAX,
        ensures
            match event {
                ListenEvent::TaskEnded => step is Wait && final(self)@ == old(self)@,
                ListenEvent::Incoming(None) => step is Stop && final(self)@ == old(self)@,
                ListenEvent::Incoming(Some(incoming)) => {
                    &&& step == (ListenStep::Spawn { id: old(self)@, incoming })
                    &&& final(self)@ == old(self)@ + 1
                },
            },
    {
        match event {
            ListenEvent::TaskEnded => ListenStep::Wait,
            ListenEvent::Incoming(None) => ListenStep::Stop,
            ListenEvent::Incoming(Some(incoming)) => {
                let id: u64 = self.request_id;
                self.request_id = id + 1;
                ListenStep::Spawn { id, incoming }
            },
        }
    }
}

/// The requests that a connection handles, if this is what reading them and handling them gives.
pub open spec fn handled<R>(
    reads: Seq<Result<Option<R>, IoError>>,
    results: Seq<Result<(), SendError>>,
) -> Seq<R>
    decreases reads.len(),
{
    if reads.len() == 0 || results.len() == 0 {
        Seq::empty()
    } else {
        match step_after_request(reads[0]) {
            ConnectionStep::Handle(request) => if step_after_handler::<R>(results[0]) is ReadNext {
                seq![request] + handled(reads.drop_first(), results.drop_first())
            } else {
                seq![request]
            },
            _ => Seq::empty(),
        }
    }
}

/// A connection handles its requests one after another, each of them once, and none after the first
/// one that it could not read or handle. It does not stop before that one.
pub proof fn law_requests_are_handled_in_order<R>(
    reads: Seq<Result<Option<R>, IoError>>,
    results: Seq<Result<(), SendError>>,
)
    ensures
        handled(reads, results).len() <= reads.len(),
        handled(reads, results).len() <= results.len(),
        forall|i: int|
            0 <= i < handled(reads, results).len() ==> reads[i] == Ok::<Option<R>, IoError>(
                Some(#[trigger] handled(reads, results)[i]),
            ),
        forall|i: int|
            0 <= i < handled(reads, results).len() - 1 ==> (#[trigger] results[i]) is Ok,
        ({
            let k = handled(reads, results).len() as int;
            k < reads.len() && k < results.len() ==> !(reads[k] matches Ok(Some(_))) || (k > 0
                && results[k - 1] is Err)
        }),
    decreases reads.len(),
{
    if reads.len() > 0 && results.len() > 0 {
        if reads[0] is Ok && reads[0]->Ok_0 is Some && results[0] is Ok {
            let rest = reads.drop_first();
            let rest_results = results.drop_first();
            law_requests_are_handled_in_order(rest, rest_results);
            let all = handled(reads, results);
            assert forall|i: int| 0 <= i < all.len() implies reads[i] == Ok::<Option<R>, IoError>(
                Some(#[trigger] all[i]),
            ) by {
                if i > 0 {
                    assert(all[i] == handled(rest, rest_results)[i - 1]);
                    assert(rest[i - 1] == reads[i]);
                }
            }
            assert forall|i: int| 0 <= i < all.len() - 1 implies (#[trigger] results[i]) is Ok by {
                if i > 0 {
                    assert(rest_results[i - 1] == results[i]);
                }
            }
        }
    }
}

/// A connection has no more requests exactly if the peer closed it with the code zero. Any other
/// failure to accept a stream pair is an error, and a stream pair is read from.
pub proof fn law_orderly_close<P>(res: Result<P, ConnectionError>)
    ensures
        accepted_spec(res) is Closed <==> (res matches Err(
            ConnectionError::ApplicationClosed { code, .. },
        ) && code == 0),
        res matches Ok(pair) ==> accepted_spec(res) == OnAccept::Read(pair),
        accepted_spec(res) is Read ==> res is Ok,
        accepted_spec(res) matches OnAccept::Fail(e) ==> res is Err && e.cause == (
        IoCause::Connection { source: res->Err_0 }) && e.kind == match res->Err_0 {
            ConnectionError::TimedOut => ErrorKind::TimedOut,
            ConnectionError::Reset => ErrorKind::ConnectionReset,
            ConnectionError::ApplicationClosed { .. } | ConnectionError::ConnectionClosed { .. } =>
                ErrorKind::ConnectionAborted,
            _ => ErrorKind::Other,
        },
{
}

/// A failed read of the size of a request is reported as it is. A stream that ends before the size
/// has ended too early. The size is refused exactly if it is above sixteen mebibytes, by the code that
/// says so, and else all of the request is read.
pub proof fn law_request_size(read: Result<Option<u64>, IoError>)
    ensures
        match read {
            Err(e) => request_size_spec(read) == OnSize::Fail(e),
            Ok(None) => request_size_spec(read) matches OnSize::Fail(e) && e.kind
                == ErrorKind::UnexpectedEof,
            Ok(Some(size)) => match request_size_spec(read) {
                OnSize::Read(n) => n == size && size <= 16777216,
                OnSize::Refuse { code, error } => size > 16777216 && code == 1 && error.kind
                    == ErrorKind::InvalidData,
                _ => false,
            },
        },
{
}

/// A request is read only if all of it is there: a frame that was cut off anywhere fails, with the
/// error for a stream that ends too early.
pub proof fn law_cut_request(payload: Seq<u8>, n: int)
    requires
        payload.len() <= MAX_MESSAGE_SIZE,
        0 <= n < frame_bytes(payload).len(),
    ensures
        request_received(frame_bytes(payload).take(n)) matches RequestReadSpec::Fail(e) && e.kind
            == ErrorKind::UnexpectedEof,
{
    let prefix = crate::util::varint::varint_bytes(payload.len());
    let bytes = frame_bytes(payload).take(n);
    crate::util::varint::law_varint_len(payload.len() as u64);
    if n < prefix.len() {
        assert(bytes =~= prefix.take(n));
        crate::util::varint::law_cut_varint(payload.len() as u64, n);
    } else {
        let part = payload.take(n - prefix.len());
        crate::util::varint::law_varint_round_trip(payload.len() as u64, part);
        assert(bytes =~= prefix + part);
        assert((prefix + part).skip(prefix.len() as int) =~= part);
    }
}

/// What is read as a request stands in the stream, right after its size, and is as long as that says.
/// A connection is closed over a request only if its size is too large.
pub proof fn law_request_is_part_of_the_stream(bytes: Seq<u8>)
    ensures
        match request_received(bytes) {
            RequestReadSpec::Body(body) => {
                let start = varint_consumed(bytes) as int;
                &&& varint_read(bytes) == Ok::<_, IoError>(Some(body.len() as u64))
                &&& body.len() <= MAX_MESSAGE_SIZE
                &&& start + body.len() <= bytes.len()
                &&& body == bytes.subrange(start, start + body.len())
            },
            RequestReadSpec::Refuse { .. } => varint_read(bytes) matches Ok(Some(size)) && size
                > MAX_MESSAGE_SIZE,
            RequestReadSpec::Fail(e) => varint_read(bytes) matches Err(cause) ==> e == cause,
        },
{
    lemma_consumed_len(bytes);
    if let RequestReadSpec::Body(body) = request_received(bytes) {
        let start = varint_consumed(bytes) as int;
        assert(body =~= bytes.subrange(start, start + body.len()));
    }
}

/// A request that was read is handled, whatever it is. A connection returns only if there are no more
/// requests, or with the error of the read or of the handler.
pub proof fn law_connection_steps<R>(read: Result<Option<R>, IoError>, res: Result<(), SendError>)
    ensures
        read matches Ok(Some(request)) ==> step_after_request(read) == ConnectionStep::Handle(request),
        read matches Ok(None) ==> step_after_request(read) == ConnectionStep::<R>::Return(Ok(())),
        read matches Err(e) ==> step_after_request(read) == ConnectionStep::<R>::Return(Err(e)),
        step_after_handler::<R>(res) is ReadNext <==> res is Ok,
        !(step_after_handler::<R>(res) is Handle),
        step_after_handler::<R>(res) matches ConnectionStep::Return(r) ==> r == Err::<(), _>(
            match res->Err_0 {
                SendError::Io { source } => source,
                SendError::ReceiverClosed => IoError {
                    kind: ErrorKind::BrokenPipe,
                    cause: IoCause::ReceiverClosed,
                },
                SendError::MaxMessageSizeExceeded => IoError {
                    kind: ErrorKind::InvalidData,
                    cause: IoCause::MaxMessageSizeExceeded,
                },
            },
        ),
{
}

/// The bytes of a request are handed on as they were read, and so is the request that they hold, with the
/// span context that came with it. A failure to read or to deserialize them is always an error, with what
/// failed as its cause.
pub proof fn law_request_failures_are_errors<S, C>(
    read: Result<Vec<u8>, IoError>,
    body: Result<Vec<u8>, IoError>,
    res: Parsed<S, C>,
    message: Result<(S, Option<C>), IoError>,
)
    requires
        call_ensures(request_body, (read,), body),
        call_ensures(request_message::<S, C>, (res,), message),
    ensures
        read is Ok <==> body is Ok,
        read matches Ok(bytes) ==> body->Ok_0 == bytes,
        read matches Err(e) ==> body->Err_0.cause == e.cause && body->Err_0.kind
            == ErrorKind::UnexpectedEof,
        message matches Ok((msg, span)) ==> {
            ||| span is None && res == Parsed::<S, C>::Plain(Ok(msg))
            ||| res == Parsed::<S, C>::WithSpan(Ok((span, msg)))
        },
        message matches Err(e) ==> {
            &&& res matches Parsed::Plain(r) ==> r matches Err(text) && e.text_spec() == text@
            &&& res matches Parsed::WithSpan(r) ==> r matches Err(text) && e.text_spec() == text@
            &&& e.kind == ErrorKind::InvalidData
        },
{
}

} // verus!
