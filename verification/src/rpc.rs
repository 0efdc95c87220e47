//! Cross-process RPC over streams.
//!
//! The streams themselves belong to the transport. What is here decides what goes over them: the
//! bytes of a message, and what follows from what the transport reports.
pub mod connection;
pub mod receive;
pub mod send;
pub mod server;

use crate::channel::{mpsc, oneshot, SendError};
use crate::error::{ConnectionError, ErrorKind, IoCause, IoError, StreamWriteError};
use vstd::prelude::*;
use vstd::std_specs::convert::FromSpec;

verus! {

/// Default max message size (16 MiB).
pub const MAX_MESSAGE_SIZE: u64 = 1024 * 1024 * 16;

/// Error code on streams if the max message size was exceeded.
pub const ERROR_CODE_MAX_MESSAGE_SIZE_EXCEEDED: u32 = 1;

/// Error code on streams if the sender tried to send a message that could not be serialized.
pub const ERROR_CODE_INVALID_POSTCARD: u32 = 2;

/// Error code on connections and streams that were refused by a filter.
pub const ERROR_CODE_REQUEST_LIMITED: u32 = 3;

/// Error that can occur when writing the initial message of a request.
#[derive(Debug, Clone, PartialEq, Eq)]
pub enum WriteError {
    /// Error writing to the stream.
    Noq { source: StreamWriteError },
    /// The message exceeded the maximum allowed message size (see [`MAX_MESSAGE_SIZE`]).
    MaxMessageSizeExceeded,
    /// Generic io error, such as one of the serializer.
    Io { source: IoError },
}

/// Error when opening a request.
#[derive(Debug, Clone, PartialEq, Eq)]
pub enum RequestError {
    /// Error establishing the connection.
    Connect { message: String },
    /// Error on an established connection, when opening a stream pair.
    Connection { source: ConnectionError },
    /// Generic error of other transports.
    Other { message: String },
}

/// Error type that subsumes all possible errors in this crate.
#[derive(Debug, Clone, PartialEq, Eq)]
pub enum Error {
    Request { source: RequestError },
    Send { source: SendError },
    MpscRecv { source: mpsc::RecvError },
    OneshotRecv { source: oneshot::RecvError },
    Write { source: WriteError },
}

impl From<WriteError> for IoError {
    fn from(e: WriteError) -> (r: Self) {
        match e {
            WriteError::Io { source } => source,
            WriteError::MaxMessageSizeExceeded => IoError {
                kind: ErrorKind::InvalidData,
                cause: IoCause::MaxMessageSizeExceeded,
            },
            WriteError::Noq { source } => IoError::from(source),
        }
    }
}

impl WriteError {
    /// The I/O error that this is.
    pub open spec fn io_error(self) -> IoError {
        match self {
            WriteError::Io { source } => source,
            WriteError::MaxMessageSizeExceeded => IoError {
                kind: ErrorKind::InvalidData,
                cause: IoCause::MaxMessageSizeExceeded,
            },
            WriteError::Noq { source } => source.io_error(),
        }
    }
}

impl vstd::std_specs::convert::FromSpecImpl<WriteError> for IoError {
    open spec fn obeys_from_spec() -> bool {
        true
    }

    open spec fn from_spec(e: WriteError) -> Self {
        e.io_error()
    }
}

impl From<StreamWriteError> for SendError {
    fn from(e: StreamWriteError) -> (r: Self) {
        match e {
            StreamWriteError::Stopped { code } if code
                == ERROR_CODE_MAX_MESSAGE_SIZE_EXCEEDED as u64 => SendError::MaxMessageSizeExceeded,
            _ => SendError::Io { source: IoError::from(e) },
        }
    }
}

impl StreamWriteError {
    /// What a sender reports for this error. A peer that stops a stream over the size of a message
    /// says so by the code.
    pub open spec fn send_error(self) -> SendError {
        match self {
            StreamWriteError::Stopped { code } if code
                == ERROR_CODE_MAX_MESSAGE_SIZE_EXCEEDED as u64 => SendError::MaxMessageSizeExceeded,
            _ => SendError::Io { source: self.io_error() },
        }
    }
}

impl vstd::std_specs::convert::FromSpecImpl<StreamWriteError> for SendError {
    open spec fn obeys_from_spec() -> bool {
        true
    }

    open spec fn from_spec(e: StreamWriteError) -> Self {
        e.send_error()
    }
}

impl From<RequestError> for IoError {
    fn from(e: RequestError) -> (r: Self) {
        match e {
            RequestError::Connect { message } => IoError {
                kind: ErrorKind::Other,
                cause: IoCause::Outside { message },
            },
            RequestError::Connection { source } => IoError::from(source),
            RequestError::Other { message } => IoError {
                kind: ErrorKind::Other,
                cause: IoCause::Outside { message },
            },
        }
    }
}

impl RequestError {
    /// The I/O error that this is.
    pub open spec fn io_error(self) -> IoError {
        match self {
            RequestError::Connect { message } => IoError {
                kind: ErrorKind::Other,
                cause: IoCause::Outside { message },
            },
            RequestError::Connection { source } => source.io_error(),
            RequestError::Other { message } => IoError {
                kind: ErrorKind::Other,
                cause: IoCause::Outside { message },
            },
        }
    }
}

impl vstd::std_specs::convert::FromSpecImpl<RequestError> for IoError {
    open spec fn obeys_from_spec() -> bool {
        true
    }

    open spec fn from_spec(e: RequestError) -> Self {
        e.io_error()
    }
}

impl From<Error> for IoError {
    fn from(e: Error) -> (r: Self) {
        match e {
            Error::Request { source } => IoError::from(source),
            Error::Send { source } => IoError::from(source),
            Error::MpscRecv { source } => IoError::from(source),
            Error::OneshotRecv { source } => IoError::from(source),
            Error::Write { source } => IoError::from(source),
        }
    }
}

impl Error {
    /// The I/O error that this is.
    pub open spec fn io_error(self) -> IoError {
        match self {
            Error::Request { source } => source.io_error(),
            Error::Send { source } => source.io_error(),
            Error::MpscRecv { source } => source.io_error(),
            Error::OneshotRecv { source } => source.io_error(),
            Error::Write { source } => source.io_error(),
        }
    }
}

impl vstd::std_specs::convert::FromSpecImpl<Error> for IoError {
    open spec fn obeys_from_spec() -> bool {
        true
    }

    open spec fn from_spec(e: Error) -> Self {
        e.io_error()
    }
}

impl From<RequestError> for Error {
    fn from(e: RequestError) -> (r: Self) {
        Error::Request { source: e }
    }
}

impl vstd::std_specs::convert::FromSpecImpl<RequestError> for Error {
    open spec fn obeys_from_spec() -> bool {
        true
    }

    open spec fn from_spec(e: RequestError) -> Self {
        Error::Request { source: e }
    }
}

impl From<SendError> for Error {
    fn from(e: SendError) -> (r: Self) {
        Error::Send { source: e }
    }
}

impl vstd::std_specs::convert::FromSpecImpl<SendError> for Error {
    open spec fn obeys_from_spec() -> bool {
        true
    }

    open spec fn from_spec(e: SendError) -> Self {
        Error::Send { source: e }
    }
}

impl From<mpsc::RecvError> for Error {
    fn from(e: mpsc::RecvError) -> (r: Self) {
        Error::MpscRecv { source: e }
    }
}

impl vstd::std_specs::convert::FromSpecImpl<mpsc::RecvError> for Error {
    open spec fn obeys_from_spec() -> bool {
        true
    }

    open spec fn from_spec(e: mpsc::RecvError) -> Self {
        Error::MpscRecv { source: e }
    }
}

impl From<oneshot::RecvError> for Error {
    fn from(e: oneshot::RecvError) -> (r: Self) {
        Error::OneshotRecv { source: e }
    }
}

impl vstd::std_specs::convert::FromSpecImpl<oneshot::RecvError> for Error {
    open spec fn obeys_from_spec() -> bool {
        true
    }

    open spec fn from_spec(e: oneshot::RecvError) -> Self {
        Error::OneshotRecv { source: e }
    }
}

impl From<WriteError> for Error {
    fn from(e: WriteError) -> (r: Self) {
        Error::Write { source: e }
    }
}

impl vstd::std_specs::convert::FromSpecImpl<WriteError> for Error {
    open spec fn obeys_from_spec() -> bool {
        true
    }

    open spec fn from_spec(e: WriteError) -> Self {
        Error::Write { source: e }
    }
}

/// The error of the serializer, as an error of a sender.
pub fn invalid_postcard(message: String) -> (e: SendError)
    ensures
        e == (SendError::Io {
            source: IoError { kind: ErrorKind::InvalidData, cause: IoCause::Outside { message } },
        }),
{
    SendError::Io {
        source: IoError { kind: ErrorKind::InvalidData, cause: IoCause::Outside { message } },
    }
}

impl WriteError {
    /// What went wrong, in words.
    pub open spec fn text_spec(self) -> Seq<char> {
        match self {
            WriteError::Noq { .. } => "Error writing to stream"@,
            WriteError::MaxMessageSizeExceeded => "Maximum message size exceeded"@,
            WriteError::Io { .. } => "Error serializing"@,
        }
    }

    /// What went wrong, in words.
    pub fn text(&self) -> (r: &'static str)
        ensures
            r@ == self.text_spec(),
    {
        match self {
            WriteError::Noq { .. } => "Error writing to stream",
            WriteError::MaxMessageSizeExceeded => "Maximum message size exceeded",
            WriteError::Io { .. } => "Error serializing",
        }
    }
}

impl RequestError {
    /// What went wrong, in words.
    pub open spec fn text_spec(self) -> Seq<char> {
        match self {
            RequestError::Connect { .. } => "Error establishing connection"@,
            RequestError::Connection { .. } => "Error opening stream"@,
            RequestError::Other { .. } => "Error opening stream"@,
        }
    }

    /// What went wrong, in words.
    pub fn text(&self) -> (r: &'static str)
        ensures
            r@ == self.text_spec(),
    {
        match self {
            RequestError::Connect { .. } => "Error establishing connection",
            RequestError::Connection { .. } => "Error opening stream",
            RequestError::Other { .. } => "Error opening stream",
        }
    }
}

impl Error {
    /// What went wrong, in words.
    pub open spec fn text_spec(self) -> Seq<char> {
        match self {
            Error::Request { .. } => "Request error"@,
            Error::Send { .. } => "Send error"@,
            Error::MpscRecv { .. } => "Mpsc recv error"@,
            Error::OneshotRecv { .. } => "Oneshot recv error"@,
            Error::Write { .. } => "Recv error"@,
        }
    }

    /// What went wrong, in words.
    pub fn text(&self) -> (r: &'static str)
        ensures
            r@ == self.text_spec(),
    {
        match self {
            Error::Request { .. } => "Request error",
            Error::Send { .. } => "Send error",
            Error::MpscRecv { .. } => "Mpsc recv error",
            Error::OneshotRecv { .. } => "Oneshot recv error",
            Error::Write { .. } => "Recv error",
        }
    }
}

/// A peer that stops a stream over the size of a message is told apart by its code, and only by that.
/// Every other failed write is reported as the I/O error that it is.
pub proof fn law_stopped_over_size(e: StreamWriteError)
    ensures
        e.send_error() == SendError::MaxMessageSizeExceeded <==> (e matches StreamWriteError::Stopped {
            code,
        } && code == 1),
        e.send_error() != SendError::MaxMessageSizeExceeded ==> e.send_error() == (SendError::Io {
            source: e.io_error(),
        }),
{
}

/// An error of this crate is the I/O error that its source is.
pub proof fn law_errors_are_their_sources(
    e: Error,
    write: WriteError,
    request: RequestError,
)
    ensures
        match e {
            Error::Request { source } => e.io_error() == source.io_error(),
            Error::Send { source } => e.io_error() == source.io_error(),
            Error::MpscRecv { source } => e.io_error() == source.io_error(),
            Error::OneshotRecv { source } => e.io_error() == source.io_error(),
            Error::Write { source } => e.io_error() == source.io_error(),
        },
        match write {
            WriteError::Io { source } => write.io_error() == source,
            WriteError::Noq { source } => write.io_error() == source.io_error(),
            WriteError::MaxMessageSizeExceeded => write.io_error().kind == ErrorKind::InvalidData
                && write.io_error().cause == IoCause::MaxMessageSizeExceeded,
        },
        match request {
            RequestError::Connection { source } => request.io_error() == source.io_error(),
            RequestError::Connect { message } | RequestError::Other { message } =>
                request.io_error().kind == ErrorKind::Other && request.io_error().cause == (
                IoCause::Outside { message }),
        },
{
}

/// The codes on the wire are one for a message that is too large, two for one that can not be
/// serialized and three for what a filter refuses. The limit is sixteen mebibytes.
pub proof fn law_codes()
    ensures
        ERROR_CODE_MAX_MESSAGE_SIZE_EXCEEDED == 1,
        ERROR_CODE_INVALID_POSTCARD == 2,
        ERROR_CODE_REQUEST_LIMITED == 3,
        MAX_MESSAGE_SIZE == 16777216,
{
}

/// An error keeps its source when it becomes an error of this crate, under the name of what it is, and
/// it is the same I/O error before and after.
pub proof fn law_errors_are_wrapped(
    request: RequestError,
    send: SendError,
    mpsc_recv: mpsc::RecvError,
    oneshot_recv: oneshot::RecvError,
    write: WriteError,
)
    ensures
        <Error as FromSpec<RequestError>>::from_spec(request) == (Error::Request { source: request }),
        <Error as FromSpec<SendError>>::from_spec(send) == (Error::Send { source: send }),
        <Error as FromSpec<mpsc::RecvError>>::from_spec(mpsc_recv) == (Error::MpscRecv {
            source: mpsc_recv,
        }),
        <Error as FromSpec<oneshot::RecvError>>::from_spec(oneshot_recv) == (Error::OneshotRecv {
            source: oneshot_recv,
        }),
        <Error as FromSpec<WriteError>>::from_spec(write) == (Error::Write { source: write }),
        <IoError as FromSpec<RequestError>>::from_spec(request) == request.io_error(),
        <IoError as FromSpec<SendError>>::from_spec(send) == send.io_error(),
        <IoError as FromSpec<mpsc::RecvError>>::from_spec(mpsc_recv) == mpsc_recv.io_error(),
        <IoError as FromSpec<oneshot::RecvError>>::from_spec(oneshot_recv)
            == oneshot_recv.io_error(),
        <IoError as FromSpec<WriteError>>::from_spec(write) == write.io_error(),
{
}

} // verus!
