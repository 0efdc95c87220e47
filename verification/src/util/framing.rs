//! Length-prefixed values.
//!
//! A value goes over the wire as a frame: the varint for the length of the serialized value, and
//! then the serialized value.
use crate::error::{outside_error, ErrorKind, IoCause, IoError};
use crate::util::frame_buf::{is_partly_written, ByteSink};
use crate::util::varint::{
    law_varint_len, law_varint_round_trip, read_varint_u64, varint_bytes, varint_consumed,
    varint_read, write_varint_u64_sync, MAX_VARINT_LEN,
};
use vstd::prelude::*;

verus! {

/// The frame for a serialized value.
pub open spec fn frame_bytes(payload: Seq<u8>) -> Seq<u8> {
    varint_bytes(payload.len()) + payload
}

/// The frames for serialized values, one after another.
pub open spec fn frames_bytes(payloads: Seq<Seq<u8>>) -> Seq<u8>
    decreases payloads.len(),
{
    if payloads.len() == 0 {
        Seq::empty()
    } else {
        frame_bytes(payloads[0]) + frames_bytes(payloads.drop_first())
    }
}

/// What to do once the length prefix of a value was read.
#[derive(Debug)]
pub enum OnSize<E> {
    /// There is no value: the stream is at its end.
    End,
    /// Fail with this error.
    Fail(E),
    /// Tell the peer by this code that its message is not accepted, and fail with this error.
    Refuse { code: u32, error: E },
    /// Read a value of this many bytes.
    Read(usize),
}

/// What [`length_prefix`] decides.
pub open spec fn length_prefix_spec(
    read: Result<Option<u64>, IoError>,
    max_size: usize,
) -> OnSize<IoError> {
    match read {
        Err(e) => OnSize::Fail(e),
        Ok(None) => OnSize::Fail(
            IoError { kind: ErrorKind::UnexpectedEof, cause: IoCause::EofReached },
        ),
        Ok(Some(size)) => if size > max_size {
            OnSize::Fail(
                IoError { kind: ErrorKind::InvalidData, cause: IoCause::LengthPrefixTooLarge },
            )
        } else {
            OnSize::Read(size as usize)
        },
    }
}

/// Decides what follows the length prefix of a value of at most `max_size` bytes.
pub fn length_prefix(read: Result<Option<u64>, IoError>, max_size: usize) -> (r: OnSize<IoError>)
    ensures
        r == length_prefix_spec(read, max_size),
{
    match read {
        Err(e) => OnSize::Fail(e),
        Ok(None) => OnSize::Fail(
            IoError { kind: ErrorKind::UnexpectedEof, cause: IoCause::EofReached },
        ),
        Ok(Some(size)) => if size > max_size as u64 {
            OnSize::Fail(
                IoError { kind: ErrorKind::InvalidData, cause: IoCause::LengthPrefixTooLarge },
            )
        } else {
            OnSize::Read(size as usize)
        },
    }
}

/// What reading a length-prefixed value from a source that holds exactly `bytes` gives.
pub open spec fn length_prefixed_read(bytes: Seq<u8>, max_size: usize) -> Result<
    Seq<u8>,
    IoError,
> {
    match length_prefix_spec(varint_read(bytes), max_size) {
        OnSize::Read(size) => body_read(bytes.skip(varint_consumed(bytes) as int), size),
        OnSize::Fail(e) => Err(e),
        OnSize::Refuse { error, .. } => Err(error),
        OnSize::End => Err(IoError { kind: ErrorKind::UnexpectedEof, cause: IoCause::EofReached }),
    }
}

/// What reading exactly `size` bytes from a source that holds exactly `bytes` gives.
pub open spec fn body_read(bytes: Seq<u8>, size: usize) -> Result<Seq<u8>, IoError> {
    if bytes.len() < size {
        Err(IoError { kind: ErrorKind::UnexpectedEof, cause: IoCause::Kind })
    } else {
        Ok(bytes.take(size as int))
    }
}

/// A result over a vector as one over its bytes.
pub open spec fn bytes_result<E>(r: Result<Vec<u8>, E>) -> Result<Seq<u8>, E> {
    match r {
        Ok(v) => Ok(v@),
        Err(e) => Err(e),
    }
}

/// Reads exactly `size` bytes from the start of `source`.
pub fn read_exact(source: &[u8], size: usize) -> (r: Result<Vec<u8>, IoError>)
    ensures
        bytes_result(r) == body_read(source@, size),
{
    if source.len() < size {
        return Err(IoError::of_kind(ErrorKind::UnexpectedEof));
    }
    let mut buf: Vec<u8> = Vec::new();
    let mut i: usize = 0;
    while i < size
        invariant
            i <= size <= source.len(),
            buf@ == source@.take(i as int),
        decreases size - i,
    {
        buf.push(source[i]);
        i = i + 1;
        assert(buf@ =~= source@.take(i as int));
    }
    Ok(buf)
}

/// The bytes of `source` from `start` on.
pub fn skip(source: &[u8], start: usize) -> (r: &[u8])
    requires
        start <= source@.len(),
    ensures
        r@ == source@.skip(start as int),
{
    let r = vstd::slice::slice_subrange(source, start, source.len());
    assert(r@ =~= source@.skip(start as int));
    r
}

/// How many bytes reading a length-prefixed value takes: the length and the value, or only the length
/// if the value is not read.
pub open spec fn length_prefixed_consumed(bytes: Seq<u8>, max_size: usize) -> nat {
    varint_consumed(bytes) + match length_prefixed_read(bytes, max_size) {
        Ok(value) => value.len(),
        Err(_) => 0,
    }
}

/// Reads a length-prefixed value of at most `max_size` bytes from the start of `source`.
///
/// Returns the value, and how much of the source was taken.
pub fn read_length_prefixed(source: &[u8], max_size: usize) -> (r: (
    Result<Vec<u8>, IoError>,
    usize,
))
    ensures
        bytes_result(r.0) == length_prefixed_read(source@, max_size),
        r.1 == length_prefixed_consumed(source@, max_size),
        r.1 <= source@.len(),
{
    let (read, consumed) = read_varint_u64(source);
    proof {
        crate::util::varint::lemma_consumed_len(source@);
    }
    match length_prefix(read, max_size) {
        OnSize::Read(size) => {
            let body = read_exact(skip(source, consumed), size);
            match body {
                Ok(value) => {
                    assert(consumed + value.len() <= source.len());
                    let taken: usize = consumed + value.len();
                    (Ok(value), taken)
                },
                Err(e) => (Err(e), consumed),
            }
        },
        OnSize::Fail(e) => (Err(e), consumed),
        OnSize::Refuse { error, .. } => (Err(error), consumed),
        OnSize::End => (
            Err(IoError { kind: ErrorKind::UnexpectedEof, cause: IoCause::EofReached }),
            consumed,
        ),
    }
}

/// What deserializing gave, with the error as an I/O error.
pub fn parsed<T>(res: Result<T, String>) -> (r: Result<T, IoError>)
    ensures
        r == match res {
            Ok(v) => Ok(v),
            Err(message) => Err(
                IoError { kind: ErrorKind::InvalidData, cause: IoCause::Outside { message } },
            ),
        },
{
    match res {
        Ok(v) => Ok(v),
        Err(message) => Err(outside_error(ErrorKind::InvalidData, message)),
    }
}

/// Writes the frame for a serialized value.
///
/// `payload` is what serializing the value gave. An error of the serializer is an
/// [`ErrorKind::InvalidData`], and nothing is written then.
pub fn write_length_prefixed<W: ByteSink>(write: &mut W, payload: Result<&[u8], String>) -> (r:
    Result<(), IoError>)
    requires
        payload matches Ok(p) ==> old(write).written().len() + frame_bytes(p@).len()
            <= W::max_written(),
    ensures
        match payload {
            Err(message) => {
                &&& r == Err::<(), _>(
                    IoError { kind: ErrorKind::InvalidData, cause: IoCause::Outside { message } },
                )
                &&& *final(write) == *old(write)
            },
            Ok(p) => match r {
                Ok(()) => {
                    &&& final(write).written() == old(write).written() + frame_bytes(p@)
                    &&& final(write).failure() == old(write).failure()
                },
                Err(e) => {
                    &&& is_partly_written(
                        old(write).written(),
                        frame_bytes(p@),
                        final(write).written(),
                    )
                    &&& final(write).failure() == Some(e)
                },
            },
        },
{
    match payload {
        Err(message) => Err(outside_error(ErrorKind::InvalidData, message)),
        Ok(p) => {
            let ghost prefix = varint_bytes(p@.len());
            match write_varint_u64_sync(write, p.len() as u64) {
                Ok(_) => {},
                Err(e) => {
                    proof {
                        let n = write.written().len() - old(write).written().len();
                        assert(frame_bytes(p@).take(n) =~= prefix.take(n));
                    }
                    return Err(e);
                },
            }
            let ghost sofar = write.written();
            match write.write_all(p) {
                Ok(()) => {
                    assert(write.written() =~= old(write).written() + frame_bytes(p@));
                    Ok(())
                },
                Err(e) => {
                    proof {
                        let n = write.written().len() - sofar.len();
                        assert(frame_bytes(p@).take(prefix.len() + n) =~= prefix + p@.take(n));
                        assert(write.written() =~= old(write).written() + frame_bytes(p@).take(
                            prefix.len() + n,
                        ));
                    }
                    Err(e)
                },
            }
        },
    }
}

/// A value that was written with a length prefix reads back unchanged, if the reader allows for
/// its length, and what follows it is left unread.
pub proof fn law_length_prefixed_round_trip(payload: Seq<u8>, max_size: usize, rest: Seq<u8>)
    requires
        payload.len() <= max_size,
    ensures
        length_prefixed_read(frame_bytes(payload) + rest, max_size) == Ok::<_, IoError>(payload),
        (frame_bytes(payload) + rest).skip(
            length_prefixed_consumed(frame_bytes(payload) + rest, max_size) as int,
        ) == rest,
{
    lemma_frame_prefix(payload, rest);
    let bytes = frame_bytes(payload) + rest;
    let n = varint_consumed(bytes);
    assert(bytes.skip(n as int) =~= payload + rest);
    assert((payload + rest).take(payload.len() as int) =~= payload);
    assert(bytes.skip(length_prefixed_consumed(bytes, max_size) as int) =~= rest);
}

/// A value above the limit of the reader is refused, however much of it there is.
pub proof fn law_length_prefix_limit(payload: Seq<u8>, max_size: usize, n: int)
    requires
        max_size < payload.len() <= u64::MAX,
        varint_bytes(payload.len()).len() <= n <= frame_bytes(payload).len(),
    ensures
        length_prefixed_read(frame_bytes(payload).take(n), max_size) == Err::<Seq<u8>, _>(
            IoError { kind: ErrorKind::InvalidData, cause: IoCause::LengthPrefixTooLarge },
        ),
{
    let prefix = varint_bytes(payload.len());
    let rest = payload.take(n - prefix.len());
    law_varint_round_trip(payload.len() as u64, rest);
    assert(frame_bytes(payload).take(n) =~= prefix + rest);
}

/// The length prefix of a frame reads as the length of the payload.
pub proof fn lemma_frame_prefix(payload: Seq<u8>, rest: Seq<u8>)
    requires
        payload.len() <= u64::MAX,
    ensures
        varint_read(frame_bytes(payload) + rest) == Ok::<_, IoError>(Some(payload.len() as u64)),
        varint_consumed(frame_bytes(payload) + rest) == varint_bytes(payload.len()).len(),
        1 <= varint_bytes(payload.len()).len() <= MAX_VARINT_LEN,
{
    law_varint_round_trip(payload.len() as u64, payload + rest);
    law_varint_len(payload.len() as u64);
    assert(frame_bytes(payload) + rest =~= varint_bytes(payload.len()) + (payload + rest));
}

/// A failed read of the length is reported as it is, and a source without a length has reached its
/// end. A length is accepted exactly if it is within the limit, and then all of it is read.
pub proof fn law_length_prefix(read: Result<Option<u64>, IoError>, max_size: usize)
    ensures
        match read {
            Err(e) => length_prefix_spec(read, max_size) == OnSize::Fail(e),
            Ok(None) => length_prefix_spec(read, max_size) matches OnSize::Fail(e) && e.kind
                == ErrorKind::UnexpectedEof,
            Ok(Some(size)) => match length_prefix_spec(read, max_size) {
                OnSize::Read(n) => n == size && n <= max_size,
                OnSize::Fail(e) => size > max_size && e.kind == ErrorKind::InvalidData,
                _ => false,
            },
        },
{
}

/// A value is read only if all of it is there: reading a frame that was cut off anywhere fails, with
/// the error for the end of the source.
pub proof fn law_cut_value(payload: Seq<u8>, max_size: usize, n: int)
    requires
        payload.len() <= max_size,
        0 <= n < frame_bytes(payload).len(),
    ensures
        length_prefixed_read(frame_bytes(payload).take(n), max_size) matches Err(e) && e.kind
            == ErrorKind::UnexpectedEof,
{
    let prefix = varint_bytes(payload.len());
    let bytes = frame_bytes(payload).take(n);
    law_varint_len(payload.len() as u64);
    if n < prefix.len() {
        assert(bytes =~= prefix.take(n));
        crate::util::varint::law_cut_varint(payload.len() as u64, n);
    } else {
        let part = payload.take(n - prefix.len());
        law_varint_round_trip(payload.len() as u64, part);
        assert(bytes =~= prefix + part);
        assert((prefix + part).skip(prefix.len() as int) =~= part);
    }
}

/// What is read is a part of the source: the bytes right after the length, as many as it says.
pub proof fn law_value_follows_its_length(bytes: Seq<u8>, max_size: usize)
    ensures
        length_prefixed_read(bytes, max_size) matches Ok(value) ==> {
            &&& varint_read(bytes) == Ok::<_, IoError>(Some(value.len() as u64))
            &&& value.len() <= max_size
            &&& length_prefixed_consumed(bytes, max_size) <= bytes.len()
            &&& value == bytes.subrange(
                varint_consumed(bytes) as int,
                length_prefixed_consumed(bytes, max_size) as int,
            )
        },
        length_prefixed_read(bytes, max_size) is Err ==> length_prefixed_consumed(bytes, max_size)
            == varint_consumed(bytes),
{
    crate::util::varint::lemma_consumed_len(bytes);
    if let Ok(value) = length_prefixed_read(bytes, max_size) {
        let start = varint_consumed(bytes) as int;
        assert(value =~= bytes.subrange(start, start + value.len()));
    }
}

/// A value that was deserialized is handed on as it is, and a failure is an error with its words.
pub proof fn law_parsed<T>(res: Result<T, String>, r: Result<T, IoError>)
    requires
        call_ensures(parsed::<T>, (res,), r),
    ensures
        r matches Ok(v) ==> res == Ok::<T, String>(v),
        r matches Err(e) ==> (res matches Err(text) && e.text_spec() == text@ && e.kind
            == ErrorKind::InvalidData),
{
}

} // verus!
