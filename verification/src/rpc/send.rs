//! Sending messages over a stream.
use crate::channel::SendError;
use crate::error::{ErrorKind, IoCause, IoError, StreamWriteError};
use crate::rpc::{
    invalid_postcard, WriteError, ERROR_CODE_INVALID_POSTCARD,
    ERROR_CODE_MAX_MESSAGE_SIZE_EXCEEDED, MAX_MESSAGE_SIZE,
};
use crate::util::frame_buf::{ByteSink, FrameBuf};
use crate::util::framing::{frame_bytes, skip, write_length_prefixed, OnSize};
use crate::util::varint::law_varint_len;
use vstd::prelude::*;

verus! {

/// A message that is not sent. The stream is reset with `code`, and the sender gets `error`.
#[derive(Debug, Clone, PartialEq, Eq)]
pub struct Refusal {
    pub code: u32,
    pub error: SendError,
}

/// The error of the serializer, as an I/O error.
pub open spec fn serializer_error(message: String) -> IoError {
    IoError { kind: ErrorKind::InvalidData, cause: IoCause::Outside { message } }
}

/// Why a message of this serialized size is not sent, if it is not.
pub open spec fn size_refusal(size: Result<usize, String>) -> Option<Refusal> {
    match size {
        Err(message) => Some(
            Refusal {
                code: ERROR_CODE_INVALID_POSTCARD,
                error: SendError::Io { source: serializer_error(message) },
            },
        ),
        Ok(n) => if n > MAX_MESSAGE_SIZE {
            Some(
                Refusal {
                    code: ERROR_CODE_MAX_MESSAGE_SIZE_EXCEEDED,
                    error: SendError::MaxMessageSizeExceeded,
                },
            )
        } else {
            None
        },
    }
}

/// What `serialize` gives has the size that was computed before.
pub open spec fn serializes_as<F: FnOnce() -> Result<Vec<u8>, String>>(
    serialize: F,
    size: Result<usize, String>,
) -> bool {
    &&& serialize.requires(())
    &&& size matches Ok(n) ==> forall|payload: Vec<u8>| #[trigger]
        serialize.ensures((), Ok(payload)) ==> payload@.len() == n
}

/// What comes of a message whose size is accepted and that serializes as `payload`.
pub open spec fn framed(payload: Result<Vec<u8>, String>) -> Result<Seq<u8>, Refusal> {
    match payload {
        Ok(p) => Ok(frame_bytes(p@)),
        Err(message) => Err(
            Refusal {
                code: ERROR_CODE_INVALID_POSTCARD,
                error: SendError::Io { source: serializer_error(message) },
            },
        ),
    }
}

/// Checks the serialized size of a message before anything is sent.
pub fn check_size(size: Result<usize, String>) -> (r: Result<(), Refusal>)
    ensures
        r == match size_refusal(size) {
            Some(refusal) => Err::<(), _>(refusal),
            None => Ok(()),
        },
{
    match size {
        Err(message) => Err(
            Refusal { code: ERROR_CODE_INVALID_POSTCARD, error: invalid_postcard(message) },
        ),
        Ok(n) => if n as u64 > MAX_MESSAGE_SIZE {
            Err(
                Refusal {
                    code: ERROR_CODE_MAX_MESSAGE_SIZE_EXCEEDED,
                    error: SendError::MaxMessageSizeExceeded,
                },
            )
        } else {
            Ok(())
        },
    }
}

/// Puts the frame for a serialized message into `buffer`, in place of what it holds.
pub fn frame_into(buffer: &mut FrameBuf, payload: Result<Vec<u8>, String>) -> (r: Result<
    (),
    Refusal,
>)
    requires
        payload matches Ok(p) ==> p@.len() <= MAX_MESSAGE_SIZE,
    ensures
        match framed(payload) {
            Ok(frame) => r is Ok && final(buffer)@ == frame,
            Err(refusal) => r == Err::<(), _>(refusal) && final(buffer)@ == Seq::<u8>::empty(),
        },
{
    buffer.clear_inner();
    let res = match payload {
        Ok(p) => {
            proof {
                law_varint_len(p@.len() as u64);
            }
            let res = write_length_prefixed(buffer, Ok(p.as_slice()));
            assert(Seq::<u8>::empty() + frame_bytes(p@) =~= frame_bytes(p@));
            res
        },
        Err(message) => write_length_prefixed(buffer, Err(message)),
    };
    match res {
        Ok(()) => Ok(()),
        Err(source) => Err(
            Refusal { code: ERROR_CODE_INVALID_POSTCARD, error: SendError::Io { source } },
        ),
    }
}

/// The frame for the initial message of a request.
///
/// `size` is the serialized size of the message. A message that is too large is not serialized.
pub fn prepare_write<F: FnOnce() -> Result<Vec<u8>, String>>(
    size: Result<usize, String>,
    serialize: F,
) -> (r: Result<FrameBuf, WriteError>)
    requires
        serializes_as(serialize, size),
    ensures
        match size {
            Err(message) => r == Err::<FrameBuf, _>(
                WriteError::Io { source: serializer_error(message) },
            ),
            Ok(n) => if n > MAX_MESSAGE_SIZE {
                r == Err::<FrameBuf, _>(WriteError::MaxMessageSizeExceeded)
            } else {
                exists|payload: Result<Vec<u8>, String>| #[trigger]
                    serialize.ensures((), payload) && match payload {
                        Ok(p) => r matches Ok(buf) && buf@ == frame_bytes(p@),
                        Err(message) => r == Err::<FrameBuf, _>(
                            WriteError::Io { source: serializer_error(message) },
                        ),
                    }
            },
        },
{
    match size {
        Err(message) => Err(
            WriteError::Io {
                source: IoError { kind: ErrorKind::InvalidData, cause: IoCause::Outside { message } },
            },
        ),
        Ok(n) => {
            if n as u64 > MAX_MESSAGE_SIZE {
                return Err(WriteError::MaxMessageSizeExceeded);
            }
            prepare_payload(serialize())
        },
    }
}

/// The frame for the initial message of a request that was serialized as `payload`.
pub fn prepare_payload(payload: Result<Vec<u8>, String>) -> (r: Result<FrameBuf, WriteError>)
    requires
        payload matches Ok(p) ==> p@.len() <= MAX_MESSAGE_SIZE,
    ensures
        match payload {
            Ok(p) => r matches Ok(buf) && buf@ == frame_bytes(p@),
            Err(message) => r == Err::<FrameBuf, _>(
                WriteError::Io { source: serializer_error(message) },
            ),
        },
{
    let mut buf = FrameBuf::new();
    let res = match payload {
        Ok(p) => {
            proof {
                law_varint_len(p@.len() as u64);
            }
            let res = write_length_prefixed(&mut buf, Ok(p.as_slice()));
            assert(Seq::<u8>::empty() + frame_bytes(p@) =~= frame_bytes(p@));
            res
        },
        Err(message) => write_length_prefixed(&mut buf, Err(message)),
    };
    match res {
        Ok(()) => Ok(buf),
        Err(source) => Err(WriteError::Io { source }),
    }
}

/// The frame for the only message of a stream.
///
/// `size` is the serialized size of the message. A message that is too large is not serialized.
pub fn oneshot_frame<F: FnOnce() -> Result<Vec<u8>, String>>(
    size: Result<usize, String>,
    serialize: F,
) -> (r: Result<FrameBuf, Refusal>)
    requires
        serializes_as(serialize, size),
    ensures
        match size_refusal(size) {
            Some(refusal) => r == Err::<FrameBuf, _>(refusal),
            None => exists|payload: Result<Vec<u8>, String>| #[trigger]
                serialize.ensures((), payload) && match framed(payload) {
                    Ok(frame) => r matches Ok(buf) && buf@ == frame,
                    Err(refusal) => r == Err::<FrameBuf, _>(refusal),
                },
        },
{
    let mut inner = NoqSenderInner { buffer: FrameBuf::new() };
    match inner.send(size, serialize) {
        Ok(()) => Ok(inner.buffer),
        Err(refusal) => Err(refusal),
    }
}

/// What writing all of a frame to a stream leads to.
pub fn on_written(res: Result<(), StreamWriteError>) -> (r: Result<(), SendError>)
    ensures
        r == match res {
            Ok(()) => Ok(()),
            Err(e) => Err::<(), SendError>(e.send_error()),
        },
{
    match res {
        Ok(()) => Ok(()),
        Err(e) => Err(SendError::from(e)),
    }
}

/// What follows the first attempt to write a frame.
#[derive(Debug, Clone, PartialEq, Eq)]
pub enum TryStep {
    /// Nothing was written: report that the message was not sent.
    NotSent,
    /// Report the error.
    Fail(SendError),
    /// Write the rest of the frame, from this offset on, however long it takes.
    WriteRest(usize),
}

/// The open end of a stream of messages, with the buffer for the frame that is being sent.
#[derive(Debug)]
pub struct NoqSenderInner {
    pub buffer: FrameBuf,
}

impl NoqSenderInner {
    /// The sender for a new stream.
    pub fn new() -> (r: Self)
        ensures
            r.buffer@ == Seq::<u8>::empty(),
    {
        NoqSenderInner { buffer: FrameBuf::new() }
    }

    /// Puts the frame for the next message into the buffer.
    ///
    /// `size` is the serialized size of the message. A message that is too large is not
    /// serialized. A refused message resets the stream.
    pub fn send<F: FnOnce() -> Result<Vec<u8>, String>>(
        &mut self,
        size: Result<usize, String>,
        serialize: F,
    ) -> (r: Result<(), Refusal>)
        requires
            serializes_as(serialize, size),
        ensures
            match size_refusal(size) {
                Some(refusal) => r == Err::<(), _>(refusal) && *final(self) == *old(self),
                None => exists|payload: Result<Vec<u8>, String>| #[trigger]
                    serialize.ensures((), payload) && match framed(payload) {
                        Ok(frame) => r is Ok && final(self).buffer@ == frame,
                        Err(refusal) => r == Err::<(), _>(refusal) && final(self).buffer@ == Seq::<
                            u8,
                        >::empty(),
                    },
            },
    {
        match check_size(size) {
            Ok(()) => {},
            Err(refusal) => {
                return Err(refusal);
            },
        }
        let payload = serialize();
        frame_into(&mut self.buffer, payload)
    }

    /// Takes what writing the frame gave.
    pub fn sent(&mut self, res: Result<(), StreamWriteError>) -> (r: Result<(), SendError>)
        ensures
            match res {
                Ok(()) => r is Ok && final(self).buffer@ == Seq::<u8>::empty(),
                Err(e) => r == Err::<(), SendError>(e.send_error()) && *final(self) == *old(
                    self,
                ),
            },
    {
        let r = on_written(res);
        match &r {
            Ok(()) => self.buffer.clear_inner(),
            Err(_) => {},
        }
        r
    }

    /// Puts the frame for the next message into the buffer, for an attempt to send it.
    ///
    /// Nothing resets the stream here: a message that is not accepted leaves no trace.
    pub fn try_send<F: FnOnce() -> Result<Vec<u8>, String>>(
        &mut self,
        size: Result<usize, String>,
        serialize: F,
    ) -> (r: Result<(), SendError>)
        requires
            serializes_as(serialize, size),
        ensures
            match size_refusal(size) {
                Some(refusal) => r == Err::<(), _>(refusal.error) && *final(self) == *old(self),
                None => exists|payload: Result<Vec<u8>, String>| #[trigger]
                    serialize.ensures((), payload) && match framed(payload) {
                        Ok(frame) => r is Ok && final(self).buffer@ == frame,
                        Err(refusal) => r == Err::<(), _>(refusal.error) && final(self).buffer@
                            == Seq::<u8>::empty(),
                    },
            },
    {
        match self.send(size, serialize) {
            Ok(()) => Ok(()),
            Err(refusal) => Err(refusal.error),
        }
    }

    /// Takes what the first attempt to write the frame gave: `None` if nothing could be written
    /// at once, else how many bytes were written.
    pub fn tried(&self, first: Option<Result<usize, StreamWriteError>>) -> (r: TryStep)
        ensures
            r == match first {
                None => TryStep::NotSent,
                Some(Err(e)) => TryStep::Fail(e.send_error()),
                Some(Ok(n)) => TryStep::WriteRest(n),
            },
    {
        match first {
            None => TryStep::NotSent,
            Some(Err(e)) => TryStep::Fail(SendError::from(e)),
            Some(Ok(n)) => TryStep::WriteRest(n),
        }
    }

    /// The frame from the offset `n` on.
    pub fn rest(&self, n: usize) -> (r: &[u8])
        requires
            n <= self.buffer@.len(),
        ensures
            r@ == self.buffer@.skip(n as int),
    {
        skip(self.buffer.as_slice(), n)
    }

    /// Takes what writing the rest of the frame gave: then the message was sent completely.
    pub fn rest_sent(&mut self, res: Result<(), StreamWriteError>) -> (r: Result<bool, SendError>)
        ensures
            match res {
                Ok(()) => r == Ok::<_, SendError>(true) && final(self).buffer@ == Seq::<
                    u8,
                >::empty(),
                Err(e) => r == Err::<bool, SendError>(e.send_error()) && *final(self)
                    == *old(self),
            },
    {
        match self.sent(res) {
            Ok(()) => Ok(true),
            Err(e) => Err(e),
        }
    }
}

/// The state of a remote sender.
///
/// A sender is closed while a message is being sent, and opened again once that has succeeded. So
/// a send that fails, or that is given up half way, leaves the sender closed for good: what was
/// written of the frame can not be taken back, and a later frame must not follow it.
#[derive(Debug)]
pub enum NoqSenderState {
    Open(NoqSenderInner),
    Closed,
}

/// The error of every use of a closed sender.
pub open spec fn sender_closed() -> SendError {
    SendError::Io { source: IoError { kind: ErrorKind::BrokenPipe, cause: IoCause::Kind } }
}

impl Default for NoqSenderState {
    fn default() -> (r: Self)
        ensures
            r is Closed,
    {
        NoqSenderState::Closed
    }
}

impl NoqSenderState {
    /// Takes the open end, to send a message through it.
    pub fn begin(&mut self) -> (r: Result<NoqSenderInner, SendError>)
        ensures
            *final(self) is Closed,
            r == match *old(self) {
                NoqSenderState::Open(inner) => Ok(inner),
                NoqSenderState::Closed => Err::<NoqSenderInner, _>(sender_closed()),
            },
    {
        let mut state = NoqSenderState::Closed;
        std::mem::swap(self, &mut state);
        match state {
            NoqSenderState::Open(inner) => Ok(inner),
            NoqSenderState::Closed => Err(
                SendError::Io { source: IoError::of_kind(ErrorKind::BrokenPipe) },
            ),
        }
    }

    /// Puts the open end back, if sending the message has succeeded.
    pub fn finish<R>(&mut self, inner: NoqSenderInner, res: &Result<R, SendError>)
        requires
            *old(self) is Closed,
        ensures
            *final(self) == match *res {
                Ok(_) => NoqSenderState::Open(inner),
                Err(_) => NoqSenderState::Closed,
            },
    {
        match res {
            Ok(_) => {
                *self = NoqSenderState::Open(inner);
            },
            Err(_) => {},
        }
    }
}

/// How a use of a remote sender came out.
pub enum Outcome {
    /// The send returned without an error, and this is the open end then.
    Succeeded(NoqSenderInner),
    /// The send returned this error.
    Failed(SendError),
    /// The send was given up before it returned.
    Cancelled,
}

/// The state of a sender after a use that came out like this. A closed sender stays as it is.
pub open spec fn state_after_use(state: NoqSenderState, outcome: Outcome) -> NoqSenderState {
    match (state, outcome) {
        (NoqSenderState::Open(_), Outcome::Succeeded(inner)) => NoqSenderState::Open(inner),
        _ => NoqSenderState::Closed,
    }
}

/// Uses a sender by its steps: takes the open end by [`NoqSenderState::begin`], and hands it back
/// by [`NoqSenderState::finish`], unless the use is given up before.
pub fn run_use(state: &mut NoqSenderState, outcome: Outcome)
    ensures
        *final(state) == state_after_use(*old(state), outcome),
{
    match state.begin() {
        Err(_) => {},
        Ok(inner) => match outcome {
            Outcome::Succeeded(inner) => state.finish(inner, &Ok::<(), SendError>(())),
            Outcome::Failed(e) => state.finish(inner, &Err::<(), SendError>(e)),
            Outcome::Cancelled => {},
        },
    }
}

/// The state of a sender after uses that came out like this.
pub open spec fn state_after(start: NoqSenderState, uses: Seq<Outcome>) -> NoqSenderState
    decreases uses.len(),
{
    if uses.len() == 0 {
        start
    } else {
        state_after_use(state_after(start, uses.drop_last()), uses.last())
    }
}

/// Once a send has failed or was given up, the sender is closed for good, however it is used
/// afterwards.
pub proof fn law_closed_for_good(start: NoqSenderState, uses: Seq<Outcome>, i: int)
    requires
        0 <= i < uses.len(),
        uses[i] !is Succeeded,
    ensures
        state_after(start, uses) is Closed,
    decreases uses.len(),
{
    if i < uses.len() - 1 {
        law_closed_for_good(start, uses.drop_last(), i);
    }
}

/// A sender that was open stays open as long as every send succeeds.
pub proof fn law_open_while_successful(start: NoqSenderInner, uses: Seq<Outcome>)
    requires
        forall|i: int| 0 <= i < uses.len() ==> #[trigger] uses[i] is Succeeded,
    ensures
        state_after(NoqSenderState::Open(start), uses) is Open,
    decreases uses.len(),
{
    if uses.len() > 0 {
        assert(uses.last() is Succeeded);
        law_open_while_successful(start, uses.drop_last());
    }
}

/// What an attempt to send the frame `frame` returns, and what it has written to the stream, if
/// that is known: after an error it is not.
///
/// `first` is what the first write gave at once, and `rest` what writing the rest gave.
pub open spec fn attempt(
    frame: Seq<u8>,
    first: Option<Result<usize, StreamWriteError>>,
    rest: Result<(), StreamWriteError>,
) -> (Result<bool, SendError>, Option<Seq<u8>>) {
    match (first, rest) {
        (None, _) => (Ok(false), Some(Seq::empty())),
        (Some(Err(e)), _) => (Err(e.send_error()), None),
        (Some(Ok(n)), Err(e)) => (Err(e.send_error()), None),
        (Some(Ok(n)), Ok(())) => (Ok(true), Some(frame.take(n as int) + frame.skip(n as int))),
    }
}

/// Runs an attempt to send the frame in the buffer by its steps, with what the stream gives.
pub fn run_attempt(
    sender: &mut NoqSenderInner,
    first: Option<Result<usize, StreamWriteError>>,
    rest: Result<(), StreamWriteError>,
) -> (r: Result<bool, SendError>)
    requires
        first matches Some(Ok(n)) ==> n <= old(sender).buffer@.len(),
    ensures
        r == attempt(old(sender).buffer@, first, rest).0,
        final(sender).buffer@ == if r == Ok::<_, SendError>(true) {
            Seq::<u8>::empty()
        } else {
            old(sender).buffer@
        },
{
    match sender.tried(first) {
        TryStep::NotSent => Ok(false),
        TryStep::Fail(e) => Err(e),
        TryStep::WriteRest(_) => sender.rest_sent(rest),
    }
}

/// An attempt that does not fail sends the message either completely or not at all, and says which.
pub proof fn law_all_or_nothing(
    frame: Seq<u8>,
    first: Option<Result<usize, StreamWriteError>>,
    rest: Result<(), StreamWriteError>,
)
    requires
        first matches Some(Ok(n)) ==> n <= frame.len(),
    ensures
        attempt(frame, first, rest) matches (Ok(sent), written) ==> written == Some(
            if sent {
                frame
            } else {
                Seq::empty()
            },
        ),
{
    if let Some(Ok(n)) = first {
        assert(frame.take(n as int) + frame.skip(n as int) =~= frame);
    }
}

/// A message is refused for its size exactly if a receiver would refuse it, and by the same code.
/// Else it is refused exactly if it does not serialize, and then the error of the serializer is
/// reported, whenever it comes.
pub proof fn law_refusals(size: Result<usize, String>, payload: Result<Vec<u8>, String>)
    ensures
        match size {
            Ok(n) => {
                let at_receiver = crate::rpc::receive::mpsc_size_spec(Ok(Some(n as u64)));
                match size_refusal(size) {
                    None => at_receiver == OnSize::<crate::channel::mpsc::RecvError>::Read(n),
                    Some(refusal) => {
                        &&& at_receiver matches OnSize::Refuse { code, .. } && code == refusal.code
                        &&& refusal.error == SendError::MaxMessageSizeExceeded
                    },
                }
            },
            Err(message) => size_refusal(size) matches Some(refusal) && refusal.code == 2
                && refusal.error == (SendError::Io {
                source: IoError { kind: ErrorKind::InvalidData, cause: IoCause::Outside { message } },
            }),
        },
        match payload {
            Ok(p) => framed(payload) == Ok::<_, Refusal>(frame_bytes(p@)),
            Err(message) => framed(payload) matches Err(refusal) && refusal.code == 2
                && refusal.error == (SendError::Io {
                source: IoError { kind: ErrorKind::InvalidData, cause: IoCause::Outside { message } },
            }),
        },
        forall|message: String| #[trigger]
            serializer_error(message) == (IoError {
                kind: ErrorKind::InvalidData,
                cause: IoCause::Outside { message },
            }),
{
}

/// A message that is accepted for sending is received whole, whatever is sent after it.
pub proof fn law_sent_message_is_received(payload: Vec<u8>, rest: Seq<u8>)
    requires
        size_refusal(Ok(payload@.len() as usize)) is None,
    ensures
        framed(Ok(payload)) matches Ok(frame) && {
            &&& crate::rpc::receive::mpsc_received(frame + rest) == Ok::<
                _,
                crate::channel::mpsc::RecvError,
            >(Some(payload@))
            &&& crate::rpc::receive::oneshot_received(frame) == Ok::<
                _,
                crate::channel::oneshot::RecvError,
            >(payload@)
        },
{
    assert(payload@.len() <= usize::MAX) by {
        vstd::std_specs::vec::axiom_spec_len(&payload);
    }
    crate::rpc::receive::law_next_message(payload@, rest);
    crate::rpc::receive::law_only_message(payload@, rest);
}

/// What an attempt to send returns: that nothing was sent exactly if nothing could be written at once,
/// the first error of the stream if there is one, and else that the message was sent.
pub proof fn law_attempt_result(
    frame: Seq<u8>,
    first: Option<Result<usize, StreamWriteError>>,
    rest: Result<(), StreamWriteError>,
)
    ensures
        attempt(frame, first, rest).0 == Ok::<bool, SendError>(false) <==> first is None,
        attempt(frame, first, rest).0 == Ok::<bool, SendError>(true) <==> (first matches Some(
            Ok(_),
        ) && rest is Ok),
        first matches Some(Err(e)) ==> attempt(frame, first, rest).0 == Err::<bool, _>(
            e.send_error(),
        ),
        first matches Some(Ok(_)) ==> (rest matches Err(e) ==> attempt(frame, first, rest).0
            == Err::<bool, _>(e.send_error())),
{
}

/// After a use that succeeds, an open sender is open again, with what the use has handed back. After
/// any other use it is closed, and a closed sender fails with a broken pipe.
pub proof fn law_state_after_use(state: NoqSenderState, outcome: Outcome)
    ensures
        state_after_use(state, outcome) is Open <==> state is Open && outcome is Succeeded,
        outcome matches Outcome::Succeeded(inner) ==> (state is Open ==> state_after_use(
            state,
            outcome,
        ) == NoqSenderState::Open(inner)),
        sender_closed() matches SendError::Io { source } && source.kind == ErrorKind::BrokenPipe,
{
}

/// A write that fails is a failure to send, and one that succeeds is none.
pub proof fn law_written(res: Result<(), StreamWriteError>, r: Result<(), SendError>)
    requires
        call_ensures(on_written, (res,), r),
    ensures
        r is Ok <==> res is Ok,
        r matches Err(e) ==> (e is MaxMessageSizeExceeded <==> res == Err::<(), _>(
            StreamWriteError::Stopped { code: ERROR_CODE_MAX_MESSAGE_SIZE_EXCEEDED as u64 },
        )),
        r matches Err(SendError::Io { source }) ==> source.cause == (IoCause::StreamWrite {
            source: res->Err_0,
        }),
        r matches Err(e) ==> !(e is ReceiverClosed),
{
}

} // verus!
