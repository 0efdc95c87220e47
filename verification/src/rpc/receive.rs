//! Receiving messages from a stream.
//!
//! A message is received in three steps: its length prefix is read, then its bytes, and then it is
//! deserialized. The functions here say what each step leads to.
use crate::channel::{mpsc, oneshot};
use crate::error::{ErrorKind, IoCause, IoError};
use crate::rpc::{ERROR_CODE_MAX_MESSAGE_SIZE_EXCEEDED, MAX_MESSAGE_SIZE};
use crate::util::framing::{
    body_read, bytes_result, frame_bytes, frames_bytes, lemma_frame_prefix, parsed, read_exact, skip,
    OnSize,
};
use crate::util::varint::{
    lemma_consumed_len, read_varint_u64, varint_consumed, varint_read,
};
use vstd::prelude::*;

verus! {

/// The error of a stream that ends before the size of a message.
pub open spec fn no_size_spec() -> IoError {
    IoError { kind: ErrorKind::UnexpectedEof, cause: IoCause::ReadSize }
}

/// The error `e`, as an error of the kind `kind`.
pub open spec fn with_kind_spec(kind: ErrorKind, e: IoError) -> IoError {
    IoError { kind, cause: e.cause }
}

fn with_kind(kind: ErrorKind, e: IoError) -> (r: IoError)
    ensures
        r == with_kind_spec(kind, e),
{
    IoError { kind, cause: e.cause }
}

/// What [`mpsc_size`] decides.
pub open spec fn mpsc_size_spec(read: Result<Option<u64>, IoError>) -> OnSize<mpsc::RecvError> {
    match read {
        Err(source) => OnSize::Fail(mpsc::RecvError::Io { source }),
        Ok(None) => OnSize::End,
        Ok(Some(size)) => if size > MAX_MESSAGE_SIZE {
            OnSize::Refuse {
                code: ERROR_CODE_MAX_MESSAGE_SIZE_EXCEEDED,
                error: mpsc::RecvError::MaxMessageSizeExceeded,
            }
        } else {
            OnSize::Read(size as usize)
        },
    }
}

/// Decides what follows the size of the next message of a stream.
///
/// A stream may end before a message. A refused message stops the stream.
pub fn mpsc_size(read: Result<Option<u64>, IoError>) -> (r: OnSize<mpsc::RecvError>)
    ensures
        r == mpsc_size_spec(read),
{
    match read {
        Err(source) => OnSize::Fail(mpsc::RecvError::Io { source }),
        Ok(None) => OnSize::End,
        Ok(Some(size)) => if size > MAX_MESSAGE_SIZE {
            OnSize::Refuse {
                code: ERROR_CODE_MAX_MESSAGE_SIZE_EXCEEDED,
                error: mpsc::RecvError::MaxMessageSizeExceeded,
            }
        } else {
            OnSize::Read(size as usize)
        },
    }
}

/// What reading the bytes of a message of a stream leads to: a stream that fails there has ended
/// too early.
pub fn mpsc_body(read: Result<Vec<u8>, IoError>) -> (r: Result<Vec<u8>, mpsc::RecvError>)
    ensures
        r == match read {
            Ok(buf) => Ok(buf),
            Err(e) => Err(
                mpsc::RecvError::Io { source: with_kind_spec(ErrorKind::UnexpectedEof, e) },
            ),
        },
{
    match read {
        Ok(buf) => Ok(buf),
        Err(e) => Err(mpsc::RecvError::Io { source: with_kind(ErrorKind::UnexpectedEof, e) }),
    }
}

/// What deserializing a message of a stream leads to.
pub fn mpsc_message<T>(res: Result<T, String>) -> (r: Result<Option<T>, mpsc::RecvError>)
    ensures
        r == match res {
            Ok(msg) => Ok(Some(msg)),
            Err(message) => Err(
                mpsc::RecvError::Io {
                    source: IoError {
                        kind: ErrorKind::InvalidData,
                        cause: IoCause::Outside { message },
                    },
                },
            ),
        },
{
    match parsed(res) {
        Ok(msg) => Ok(Some(msg)),
        Err(source) => Err(mpsc::RecvError::Io { source }),
    }
}

/// What [`oneshot_size`] decides.
pub open spec fn oneshot_size_spec(read: Result<Option<u64>, IoError>) -> OnSize<
    oneshot::RecvError,
> {
    match read {
        Err(source) => OnSize::Fail(oneshot::RecvError::Io { source }),
        Ok(None) => OnSize::Fail(oneshot::RecvError::Io { source: no_size_spec() }),
        Ok(Some(size)) => if size > MAX_MESSAGE_SIZE {
            OnSize::Refuse {
                code: ERROR_CODE_MAX_MESSAGE_SIZE_EXCEEDED,
                error: oneshot::RecvError::MaxMessageSizeExceeded,
            }
        } else {
            OnSize::Read(size as usize)
        },
    }
}

/// Decides what follows the size of the only message of a stream.
///
/// A refused message stops the stream. Else the rest of the stream is the message.
pub fn oneshot_size(read: Result<Option<u64>, IoError>) -> (r: OnSize<oneshot::RecvError>)
    ensures
        r == oneshot_size_spec(read),
{
    match read {
        Err(source) => OnSize::Fail(oneshot::RecvError::Io { source }),
        Ok(None) => OnSize::Fail(
            oneshot::RecvError::Io {
                source: IoError { kind: ErrorKind::UnexpectedEof, cause: IoCause::ReadSize },
            },
        ),
        Ok(Some(size)) => if size > MAX_MESSAGE_SIZE {
            OnSize::Refuse {
                code: ERROR_CODE_MAX_MESSAGE_SIZE_EXCEEDED,
                error: oneshot::RecvError::MaxMessageSizeExceeded,
            }
        } else {
            OnSize::Read(size as usize)
        },
    }
}

/// What reading the rest of a stream with one message leads to.
pub fn oneshot_body(read: Result<Vec<u8>, IoError>) -> (r: Result<Vec<u8>, oneshot::RecvError>)
    ensures
        r == match read {
            Ok(buf) => Ok(buf),
            Err(e) => Err(
                oneshot::RecvError::Io { source: with_kind_spec(ErrorKind::InvalidData, e) },
            ),
        },
{
    match read {
        Ok(buf) => Ok(buf),
        Err(e) => Err(oneshot::RecvError::Io { source: with_kind(ErrorKind::InvalidData, e) }),
    }
}

/// What deserializing the only message of a stream leads to.
pub fn oneshot_message<T>(res: Result<T, String>) -> (r: Result<T, oneshot::RecvError>)
    ensures
        r == match res {
            Ok(msg) => Ok(msg),
            Err(message) => Err(
                oneshot::RecvError::Io {
                    source: IoError {
                        kind: ErrorKind::InvalidData,
                        cause: IoCause::Outside { message },
                    },
                },
            ),
        },
{
    match parsed(res) {
        Ok(msg) => Ok(msg),
        Err(source) => Err(oneshot::RecvError::Io { source }),
    }
}

/// What receiving the bytes of the next message from a stream that holds exactly `bytes` gives.
pub open spec fn mpsc_received(bytes: Seq<u8>) -> Result<Option<Seq<u8>>, mpsc::RecvError> {
    match mpsc_size_spec(varint_read(bytes)) {
        OnSize::End => Ok(None),
        OnSize::Fail(error) => Err(error),
        OnSize::Refuse { error, .. } => Err(error),
        OnSize::Read(size) => match body_read(bytes.skip(varint_consumed(bytes) as int), size) {
            Ok(body) => Ok(Some(body)),
            Err(e) => Err(
                mpsc::RecvError::Io { source: with_kind_spec(ErrorKind::UnexpectedEof, e) },
            ),
        },
    }
}

/// What a stream holds after a message with the bytes `body` was received from `bytes`.
pub open spec fn after_message(bytes: Seq<u8>, body: Seq<u8>) -> Seq<u8> {
    bytes.skip((varint_consumed(bytes) + body.len()) as int)
}

/// All messages that can be received from a stream that holds exactly `bytes`, up to its end or
/// the first error.
pub open spec fn mpsc_drained(bytes: Seq<u8>) -> Seq<Seq<u8>>
    decreases bytes.len(),
{
    match mpsc_received(bytes) {
        Ok(Some(body)) => {
            let rest = after_message(bytes, body);
            if rest.len() < bytes.len() {
                seq![body] + mpsc_drained(rest)
            } else {
                Seq::empty()
            }
        },
        _ => Seq::empty(),
    }
}

/// Receives the bytes of the next message from the start of `source`.
///
/// Returns the bytes, or `None` at the end of the source, and how much of the source was taken: of
/// a message that is not received, only the size.
pub fn mpsc_receive(source: &[u8]) -> (r: (Result<Option<Vec<u8>>, mpsc::RecvError>, usize))
    ensures
        match r.0 {
            Ok(Some(body)) => {
                &&& mpsc_received(source@) == Ok::<_, mpsc::RecvError>(Some(body@))
                &&& r.1 <= source@.len()
                &&& source@.skip(r.1 as int) == after_message(source@, body@)
            },
            Ok(None) => {
                &&& mpsc_received(source@) == Ok::<Option<Seq<u8>>, mpsc::RecvError>(None)
                &&& r.1 == varint_consumed(source@)
            },
            Err(e) => {
                &&& mpsc_received(source@) == Err::<Option<Seq<u8>>, _>(e)
                &&& r.1 == varint_consumed(source@)
            },
        },
{
    let (read, consumed) = read_varint_u64(source);
    proof {
        lemma_consumed_len(source@);
    }
    match mpsc_size(read) {
        OnSize::End => (Ok(None), consumed),
        OnSize::Fail(error) => (Err(error), consumed),
        OnSize::Refuse { error, .. } => (Err(error), consumed),
        OnSize::Read(size) => {
            let body = mpsc_body(read_exact(skip(source, consumed), size));
            match body {
                Ok(body) => {
                    let taken: usize = consumed + body.len();
                    (Ok(Some(body)), taken)
                },
                Err(e) => (Err(e), consumed),
            }
        },
    }
}

/// What reading the rest `bytes` of a stream gives, if at most `size` bytes are allowed.
pub open spec fn rest_read(bytes: Seq<u8>, size: usize) -> Result<Seq<u8>, IoError> {
    if bytes.len() > size {
        Err(IoError { kind: ErrorKind::InvalidData, cause: IoCause::StreamTooLong })
    } else {
        Ok(bytes)
    }
}

/// What receiving the bytes of the only message from a stream that holds exactly `bytes` gives.
pub open spec fn oneshot_received(bytes: Seq<u8>) -> Result<Seq<u8>, oneshot::RecvError> {
    match oneshot_size_spec(varint_read(bytes)) {
        OnSize::End => Err(oneshot::RecvError::Io { source: no_size_spec() }),
        OnSize::Fail(error) => Err(error),
        OnSize::Refuse { error, .. } => Err(error),
        OnSize::Read(size) => match rest_read(bytes.skip(varint_consumed(bytes) as int), size) {
            Ok(rest) => Ok(rest),
            Err(e) => Err(
                oneshot::RecvError::Io { source: with_kind_spec(ErrorKind::InvalidData, e) },
            ),
        },
    }
}

/// Receives the bytes of the only message of `source`.
pub fn oneshot_receive(source: &[u8]) -> (r: Result<Vec<u8>, oneshot::RecvError>)
    ensures
        bytes_result(r) == oneshot_received(source@),
{
    let (read, consumed) = read_varint_u64(source);
    proof {
        lemma_consumed_len(source@);
    }
    match oneshot_size(read) {
        OnSize::End => Err(
            oneshot::RecvError::Io {
                source: IoError { kind: ErrorKind::UnexpectedEof, cause: IoCause::ReadSize },
            },
        ),
        OnSize::Fail(error) => Err(error),
        OnSize::Refuse { error, .. } => Err(error),
        OnSize::Read(size) => {
            let rest = skip(source, consumed);
            if rest.len() > size {
                oneshot_body(
                    Err(IoError { kind: ErrorKind::InvalidData, cause: IoCause::StreamTooLong }),
                )
            } else {
                let rest = read_exact(rest, rest.len());
                assert(source@.skip(consumed as int).take(source@.len() - consumed)
                    =~= source@.skip(consumed as int));
                oneshot_body(rest)
            }
        },
    }
}

/// The messages that were written to a stream, one frame after another, are received in order,
/// and then comes the end of the stream.
pub proof fn law_messages_arrive_in_order(payloads: Seq<Seq<u8>>)
    requires
        forall|i: int| 0 <= i < payloads.len() ==> (#[trigger] payloads[i]).len() <= MAX_MESSAGE_SIZE,
    ensures
        mpsc_drained(frames_bytes(payloads)) == payloads,
        payloads.len() == 0 ==> mpsc_received(frames_bytes(payloads)) == Ok::<
            Option<Seq<u8>>,
            mpsc::RecvError,
        >(None),
    decreases payloads.len(),
{
    if payloads.len() > 0 {
        let rest = payloads.drop_first();
        law_next_message(payloads[0], frames_bytes(rest));
        assert forall|i: int| 0 <= i < rest.len() implies (#[trigger] rest[i]).len()
            <= MAX_MESSAGE_SIZE by {
            assert(rest[i] == payloads[i + 1]);
        }
        law_messages_arrive_in_order(rest);
        assert(seq![payloads[0]] + rest =~= payloads);
        assert(frame_bytes(payloads[0]).len() > 0) by {
            lemma_frame_prefix(payloads[0], Seq::empty());
        }
    }
}

/// A message that was written to a stream is received whole, and what follows it stays in the
/// stream.
pub proof fn law_next_message(payload: Seq<u8>, rest: Seq<u8>)
    requires
        payload.len() <= MAX_MESSAGE_SIZE,
    ensures
        mpsc_received(frame_bytes(payload) + rest) == Ok::<_, mpsc::RecvError>(Some(payload)),
        after_message(frame_bytes(payload) + rest, payload) == rest,
{
    let bytes = frame_bytes(payload) + rest;
    lemma_frame_prefix(payload, rest);
    assert(bytes.skip(varint_consumed(bytes) as int) =~= payload + rest);
    assert((payload + rest).take(payload.len() as int) =~= payload);
    assert(after_message(bytes, payload) =~= rest);
}

/// A message that was cut off is never received as a message: the stream has ended too early.
pub proof fn law_cut_message(payload: Seq<u8>, n: int)
    requires
        payload.len() <= MAX_MESSAGE_SIZE,
        crate::util::varint::varint_bytes(payload.len()).len() <= n < frame_bytes(payload).len(),
    ensures
        mpsc_received(frame_bytes(payload).take(n)) == Err::<Option<Seq<u8>>, _>(
            mpsc::RecvError::Io {
                source: IoError { kind: ErrorKind::UnexpectedEof, cause: IoCause::Kind },
            },
        ),
{
    let prefix = crate::util::varint::varint_bytes(payload.len());
    let part = payload.take(n - prefix.len());
    crate::util::varint::law_varint_round_trip(payload.len() as u64, part);
    assert(frame_bytes(payload).take(n) =~= prefix + part);
    assert((prefix + part).skip(prefix.len() as int) =~= part);
}

/// A message above [`MAX_MESSAGE_SIZE`] is refused, by an mpsc and by a oneshot receiver alike.
pub proof fn law_large_message_is_refused(payload: Seq<u8>, rest: Seq<u8>)
    requires
        MAX_MESSAGE_SIZE < payload.len() <= u64::MAX,
    ensures
        mpsc_received(frame_bytes(payload) + rest) == Err::<Option<Seq<u8>>, _>(
            mpsc::RecvError::MaxMessageSizeExceeded,
        ),
        oneshot_received(frame_bytes(payload) + rest) == Err::<Seq<u8>, _>(
            oneshot::RecvError::MaxMessageSizeExceeded,
        ),
{
    lemma_frame_prefix(payload, rest);
}

/// The only message of a stream is received whole, unless something follows it.
pub proof fn law_only_message(payload: Seq<u8>, rest: Seq<u8>)
    requires
        payload.len() <= MAX_MESSAGE_SIZE,
    ensures
        oneshot_received(frame_bytes(payload)) == Ok::<_, oneshot::RecvError>(payload),
        rest.len() > 0 ==> oneshot_received(frame_bytes(payload) + rest) == Err::<Seq<u8>, _>(
            oneshot::RecvError::Io {
                source: IoError { kind: ErrorKind::InvalidData, cause: IoCause::StreamTooLong },
            },
        ),
{
    lemma_frame_prefix(payload, rest);
    lemma_frame_prefix(payload, Seq::empty());
    let bytes = frame_bytes(payload) + rest;
    assert(frame_bytes(payload) + Seq::<u8>::empty() =~= frame_bytes(payload));
    assert(bytes.skip(varint_consumed(bytes) as int) =~= payload + rest);
    assert(frame_bytes(payload).skip(varint_consumed(frame_bytes(payload)) as int) =~= payload);
}

/// From a stream that was cut off anywhere, the first few messages are received as they were sent,
/// and nothing else.
pub proof fn law_cut_stream(payloads: Seq<Seq<u8>>, n: int)
    requires
        forall|i: int| 0 <= i < payloads.len() ==> (#[trigger] payloads[i]).len() <= MAX_MESSAGE_SIZE,
        0 <= n <= frames_bytes(payloads).len(),
    ensures
        mpsc_drained(frames_bytes(payloads).take(n)).len() <= payloads.len(),
        mpsc_drained(frames_bytes(payloads).take(n)) == payloads.take(
            mpsc_drained(frames_bytes(payloads).take(n)).len() as int,
        ),
    decreases payloads.len(),
{
    let cut = frames_bytes(payloads).take(n);
    if n == 0 {
        assert(cut =~= Seq::empty());
        assert(mpsc_drained(cut) =~= Seq::empty());
    } else {
        let first = payloads[0];
        let rest = payloads.drop_first();
        let frame = frame_bytes(first);
        lemma_frame_prefix(first, Seq::empty());
        if n < frame.len() {
            assert(cut =~= frame.take(n));
            let prefix = crate::util::varint::varint_bytes(first.len());
            if n < prefix.len() {
                assert(cut =~= prefix.take(n));
                crate::util::varint::law_cut_varint(first.len() as u64, n);
            } else {
                law_cut_message(first, n);
            }
            assert(mpsc_drained(cut) =~= Seq::empty());
            assert(payloads.take(0) =~= Seq::empty());
        } else {
            let tail = frames_bytes(rest).take(n - frame.len());
            assert(cut =~= frame + tail);
            law_next_message(first, tail);
            assert forall|i: int| 0 <= i < rest.len() implies (#[trigger] rest[i]).len()
                <= MAX_MESSAGE_SIZE by {
                assert(rest[i] == payloads[i + 1]);
            }
            law_cut_stream(rest, n - frame.len());
            let k = mpsc_drained(tail).len() as int;
            assert(mpsc_drained(cut) =~= seq![first] + mpsc_drained(tail));
            assert(payloads.take(k + 1) =~= seq![first] + rest.take(k));
        }
    }
}

/// A failed read of the size of a message is reported as that error, and is never the end of the
/// stream, for a stream of messages and for one with a single message.
pub proof fn law_read_errors_are_reported(e: IoError)
    ensures
        mpsc_size_spec(Err(e)) == OnSize::Fail(mpsc::RecvError::Io { source: e }),
        oneshot_size_spec(Err(e)) == OnSize::Fail(oneshot::RecvError::Io { source: e }),
{
}

/// A stream of messages ends exactly where there is not a single byte of another message. A stream
/// with one message must not end before it.
pub proof fn law_only_an_empty_stream_ends(bytes: Seq<u8>)
    ensures
        mpsc_received(bytes) == Ok::<Option<Seq<u8>>, mpsc::RecvError>(None) <==> bytes.len() == 0,
        bytes.len() == 0 ==> (oneshot_received(bytes) matches Err(oneshot::RecvError::Io { source })
            && source.kind == ErrorKind::UnexpectedEof),
{
    crate::util::varint::law_only_an_empty_source_has_no_varint(bytes);
}

/// Every proper part of a frame from its start that is not empty is an error for both receivers,
/// and the error says that the stream has ended too early.
pub proof fn law_cut_frame_is_an_error(payload: Seq<u8>, n: int)
    requires
        payload.len() <= MAX_MESSAGE_SIZE,
        0 < n < frame_bytes(payload).len(),
    ensures
        mpsc_received(frame_bytes(payload).take(n)) matches Err(mpsc::RecvError::Io { source })
            && source.kind == ErrorKind::UnexpectedEof,
        n < crate::util::varint::varint_bytes(payload.len()).len() ==> (oneshot_received(
            frame_bytes(payload).take(n),
        ) matches Err(oneshot::RecvError::Io { source }) && source.kind == ErrorKind::UnexpectedEof),
{
    let prefix = crate::util::varint::varint_bytes(payload.len());
    if n < prefix.len() {
        assert(frame_bytes(payload).take(n) =~= prefix.take(n));
        crate::util::varint::law_cut_varint(payload.len() as u64, n);
    } else {
        law_cut_message(payload, n);
    }
}

/// What is received as a message stands in the stream, right after its size: so many bytes as the
/// size says for a stream of messages, and all that is left, which is no more, for a single one.
pub proof fn law_messages_are_parts_of_the_stream(bytes: Seq<u8>)
    ensures
        mpsc_received(bytes) matches Ok(Some(body)) ==> {
            let start = varint_consumed(bytes) as int;
            &&& varint_read(bytes) == Ok::<_, IoError>(Some(body.len() as u64))
            &&& body.len() <= MAX_MESSAGE_SIZE
            &&& start + body.len() <= bytes.len()
            &&& body == bytes.subrange(start, start + body.len())
            &&& after_message(bytes, body) == bytes.subrange(
                start + body.len(),
                bytes.len() as int,
            )
        },
        oneshot_received(bytes) matches Ok(body) ==> {
            let start = varint_consumed(bytes) as int;
            &&& varint_read(bytes) matches Ok(Some(size)) && body.len() <= size
                && size <= MAX_MESSAGE_SIZE
            &&& start + body.len() == bytes.len()
            &&& body == bytes.subrange(start, bytes.len() as int)
        },
{
    lemma_consumed_len(bytes);
    let start = varint_consumed(bytes) as int;
    if let Ok(Some(body)) = mpsc_received(bytes) {
        assert(body =~= bytes.subrange(start, start + body.len()));
        assert(after_message(bytes, body) =~= bytes.subrange(
            start + body.len(),
            bytes.len() as int,
        ));
    }
    if let Ok(body) = oneshot_received(bytes) {
        assert(body =~= bytes.subrange(start, bytes.len() as int));
    }
}

/// The size of a message is refused exactly if it is above sixteen mebibytes, by a code that says so.
/// A size that is not refused is read as it is.
pub proof fn law_size_limit(size: u64)
    ensures
        match mpsc_size_spec(Ok(Some(size))) {
            OnSize::Read(n) => n == size && size <= 16777216,
            OnSize::Refuse { code, error } => size > 16777216 && code == 1 && error
                == mpsc::RecvError::MaxMessageSizeExceeded,
            _ => false,
        },
        match oneshot_size_spec(Ok(Some(size))) {
            OnSize::Read(n) => n == size && size <= 16777216,
            OnSize::Refuse { code, error } => size > 16777216 && code == 1 && error
                == oneshot::RecvError::MaxMessageSizeExceeded,
            _ => false,
        },
{
}

/// The next message of a stream does not depend on what comes after it, and draining a stream takes
/// the next message and then drains the rest.
pub proof fn law_draining(bytes: Seq<u8>, more: Seq<u8>)
    ensures
        mpsc_received(bytes) matches Ok(Some(body)) ==> {
            &&& mpsc_received(bytes + more) == Ok::<_, mpsc::RecvError>(Some(body))
            &&& after_message(bytes + more, body) == after_message(bytes, body) + more
            &&& mpsc_drained(bytes) == seq![body] + mpsc_drained(after_message(bytes, body))
        },
        !(mpsc_received(bytes) matches Ok(Some(_))) ==> mpsc_drained(bytes).len() == 0,
{
    lemma_consumed_len(bytes);
    if let Ok(Some(body)) = mpsc_received(bytes) {
        crate::util::varint::law_only_an_empty_source_has_no_varint(bytes);
        crate::util::varint::lemma_read_ignores_rest(bytes, more);
        let start = varint_consumed(bytes) as int;
        assert((bytes + more).skip(start) =~= bytes.skip(start) + more);
        assert((bytes.skip(start) + more).take(body.len() as int) =~= bytes.skip(start).take(
            body.len() as int,
        ));
        assert(after_message(bytes + more, body) =~= after_message(bytes, body) + more);
    }
}

/// An error that gets another kind keeps its cause. A stream that ends before the size of a message
/// has ended too early.
pub proof fn law_error_with_kind(kind: ErrorKind, e: IoError)
    ensures
        with_kind_spec(kind, e).kind == kind,
        with_kind_spec(kind, e).cause == e.cause,
        no_size_spec().kind == ErrorKind::UnexpectedEof,
{
}

/// The bytes of a message are handed on as they were read, and so is the message that they hold. A
/// failure to read or to deserialize them is always an error, with what failed as its cause.
pub proof fn law_failures_are_errors<T>(
    read: Result<Vec<u8>, IoError>,
    res: Result<T, String>,
    body: Result<Vec<u8>, mpsc::RecvError>,
    message: Result<Option<T>, mpsc::RecvError>,
    only_body: Result<Vec<u8>, oneshot::RecvError>,
    only_message: Result<T, oneshot::RecvError>,
)
    requires
        call_ensures(mpsc_body, (read,), body),
        call_ensures(mpsc_message::<T>, (res,), message),
        call_ensures(oneshot_body, (read,), only_body),
        call_ensures(oneshot_message::<T>, (res,), only_message),
    ensures
        read is Ok <==> body is Ok,
        read is Ok <==> only_body is Ok,
        read matches Ok(bytes) ==> body->Ok_0 == bytes && only_body->Ok_0 == bytes,
        read matches Err(e) ==> {
            &&& body->Err_0 matches mpsc::RecvError::Io { source } && source.cause == e.cause
                && source.kind == ErrorKind::UnexpectedEof
            &&& only_body->Err_0 matches oneshot::RecvError::Io { source } && source.cause == e.cause
                && source.kind == ErrorKind::InvalidData
        },
        res is Ok <==> message is Ok,
        res is Ok <==> only_message is Ok,
        res matches Ok(msg) ==> message->Ok_0 == Some(msg) && only_message->Ok_0 == msg,
        res matches Err(text) ==> {
            &&& message->Err_0 matches mpsc::RecvError::Io { source } && source.kind
                == ErrorKind::InvalidData && source.text_spec() == text@
            &&& only_message->Err_0 matches oneshot::RecvError::Io { source } && source.kind
                == ErrorKind::InvalidData && source.text_spec() == text@
        },
{
}

} // verus!
