//! I/O errors as the rest of the crate sees them.
use crate::util::decimal::{decimal, push_decimal};
use vstd::prelude::*;

verus! {

/// The category of an [`IoError`].
#[derive(Debug, Clone, Copy, PartialEq, Eq, Structural)]
pub enum ErrorKind {
    AddrInUse,
    AddrNotAvailable,
    AlreadyExists,
    BrokenPipe,
    ConnectionAborted,
    ConnectionRefused,
    ConnectionReset,
    HostUnreachable,
    Interrupted,
    InvalidData,
    InvalidInput,
    NetworkDown,
    NetworkUnreachable,
    NotConnected,
    NotFound,
    OutOfMemory,
    PermissionDenied,
    TimedOut,
    UnexpectedEof,
    Unsupported,
    WouldBlock,
    WriteZero,
    /// Any other category.
    Other,
}

/// Why a connection ended, or could not be established. Where the transport knows more, its words are
/// in `message`.
#[derive(Debug, Clone, PartialEq, Eq)]
pub enum ConnectionError {
    /// The peer does not implement any supported version.
    VersionMismatch,
    /// The peer violated the transport protocol.
    TransportError { message: String },
    /// The peer's transport aborted the connection.
    ConnectionClosed { message: String },
    /// The peer's application closed the connection with this code.
    ApplicationClosed { code: u64, message: String },
    /// The peer can not continue with this connection.
    Reset,
    /// The peer was silent for too long.
    TimedOut,
    /// This side closed the connection.
    LocallyClosed,
    /// No connection ids are left.
    CidsExhausted,
}

/// Why writing to a stream failed.
#[derive(Debug, Clone, PartialEq, Eq)]
pub enum StreamWriteError {
    /// The peer stopped the stream with this code.
    Stopped { code: u64 },
    /// The connection was lost.
    ConnectionLost { source: ConnectionError },
    /// The stream was finished or reset before.
    ClosedStream,
    /// The stream was opened in 0-RTT, and the server rejected that.
    ZeroRttRejected,
}

/// What an [`IoError`] was made from.
#[derive(Debug, Clone, PartialEq, Eq)]
pub enum IoCause {
    /// Nothing but the kind.
    Kind,
    /// A varint did not end within the bytes that a `u64` can take.
    VarintTooLarge,
    /// The stream ended before the size of a message.
    ReadSize,
    /// The stream ended before a length-prefixed value.
    EofReached,
    /// A length prefix was above the limit given by the caller.
    LengthPrefixTooLarge,
    /// A stream that was read to its end held more bytes than allowed.
    StreamTooLong,
    /// A stream of items ended without an end-of-stream marker.
    EndOfStream,
    /// No socket path is known for the local address with this port.
    NoPathForAddr { port: u16 },
    /// The receiving half of a channel is gone.
    ReceiverClosed,
    /// The sending half of a channel is gone.
    SenderClosed,
    /// A message was above the size limit.
    MaxMessageSizeExceeded,
    /// The connection failed.
    Connection { source: ConnectionError },
    /// Writing to a stream failed.
    StreamWrite { source: StreamWriteError },
    /// An error that was reported by the transport or by the serializer.
    Outside { message: String },
}

/// An I/O error: its kind, and what it was made from.
#[derive(Debug, Clone, PartialEq, Eq)]
pub struct IoError {
    pub kind: ErrorKind,
    pub cause: IoCause,
}

impl IoError {
    /// An error with nothing but a kind.
    pub fn of_kind(kind: ErrorKind) -> (e: IoError)
        ensures
            e == (IoError { kind, cause: IoCause::Kind }),
    {
        IoError { kind, cause: IoCause::Kind }
    }

    pub fn kind(&self) -> (k: ErrorKind)
        ensures
            k == self.kind,
    {
        self.kind
    }
}

/// An I/O error for an outside error with the text `message`.
pub fn outside_error(kind: ErrorKind, message: String) -> (e: IoError)
    ensures
        e == (IoError { kind, cause: IoCause::Outside { message } }),
{
    IoError { kind, cause: IoCause::Outside { message } }
}

impl ConnectionError {
    /// The kind of I/O error that a failed connection is.
    pub open spec fn kind_spec(self) -> ErrorKind {
        match self {
            ConnectionError::TimedOut => ErrorKind::TimedOut,
            ConnectionError::Reset => ErrorKind::ConnectionReset,
            ConnectionError::ApplicationClosed { .. } => ErrorKind::ConnectionAborted,
            ConnectionError::ConnectionClosed { .. } => ErrorKind::ConnectionAborted,
            _ => ErrorKind::Other,
        }
    }

    /// The kind of I/O error that this is.
    pub fn kind(&self) -> (k: ErrorKind)
        ensures
            k == self.kind_spec(),
    {
        match self {
            ConnectionError::TimedOut => ErrorKind::TimedOut,
            ConnectionError::Reset => ErrorKind::ConnectionReset,
            ConnectionError::ApplicationClosed { .. } => ErrorKind::ConnectionAborted,
            ConnectionError::ConnectionClosed { .. } => ErrorKind::ConnectionAborted,
            _ => ErrorKind::Other,
        }
    }
}

impl From<ConnectionError> for IoError {
    fn from(e: ConnectionError) -> (r: Self) {
        IoError { kind: e.kind(), cause: IoCause::Connection { source: e } }
    }
}

impl ConnectionError {
    /// The I/O error that this is.
    pub open spec fn io_error(self) -> IoError {
        IoError { kind: self.kind_spec(), cause: IoCause::Connection { source: self } }
    }
}

impl vstd::std_specs::convert::FromSpecImpl<ConnectionError> for IoError {
    open spec fn obeys_from_spec() -> bool {
        true
    }

    open spec fn from_spec(e: ConnectionError) -> Self {
        e.io_error()
    }
}

impl From<StreamWriteError> for IoError {
    fn from(e: StreamWriteError) -> (r: Self) {
        IoError {
            kind: match &e {
                StreamWriteError::Stopped { .. } | StreamWriteError::ZeroRttRejected =>
                    ErrorKind::ConnectionReset,
                StreamWriteError::ConnectionLost { .. } | StreamWriteError::ClosedStream =>
                    ErrorKind::NotConnected,
            },
            cause: IoCause::StreamWrite { source: e },
        }
    }
}

impl StreamWriteError {
    /// The I/O error that this is.
    pub open spec fn io_error(self) -> IoError {
        IoError {
            kind: match self {
                StreamWriteError::Stopped { .. } => ErrorKind::ConnectionReset,
                StreamWriteError::ZeroRttRejected => ErrorKind::ConnectionReset,
                _ => ErrorKind::NotConnected,
            },
            cause: IoCause::StreamWrite { source: self },
        }
    }
}

impl vstd::std_specs::convert::FromSpecImpl<StreamWriteError> for IoError {
    open spec fn obeys_from_spec() -> bool {
        true
    }

    open spec fn from_spec(e: StreamWriteError) -> Self {
        e.io_error()
    }
}

impl ConnectionError {
    /// What went wrong, in words.
    pub open spec fn text_spec(self) -> Seq<char> {
        match self {
            ConnectionError::VersionMismatch => "peer doesn't implement any supported version"@,
            ConnectionError::TransportError { message } => message@,
            ConnectionError::ConnectionClosed { message } => message@,
            ConnectionError::ApplicationClosed { message, .. } => message@,
            ConnectionError::Reset => "reset by peer"@,
            ConnectionError::TimedOut => "timed out"@,
            ConnectionError::LocallyClosed => "closed"@,
            ConnectionError::CidsExhausted => "CIDs exhausted"@,
        }
    }

    /// What went wrong, in words.
    pub fn text(&self) -> (r: String)
        ensures
            r@ == self.text_spec(),
    {
        match self {
            ConnectionError::VersionMismatch =>
                "peer doesn't implement any supported version".to_owned(),
            ConnectionError::TransportError { message } => message.clone(),
            ConnectionError::ConnectionClosed { message } => message.clone(),
            ConnectionError::ApplicationClosed { message, .. } => message.clone(),
            ConnectionError::Reset => "reset by peer".to_owned(),
            ConnectionError::TimedOut => "timed out".to_owned(),
            ConnectionError::LocallyClosed => "closed".to_owned(),
            ConnectionError::CidsExhausted => "CIDs exhausted".to_owned(),
        }
    }
}

impl StreamWriteError {
    /// What went wrong, in words.
    pub open spec fn text_spec(self) -> Seq<char> {
        match self {
            StreamWriteError::Stopped { code } => "sending stopped by peer: error "@ + decimal(
                code as nat,
            ),
            StreamWriteError::ConnectionLost { .. } => "connection lost"@,
            StreamWriteError::ClosedStream => "closed stream"@,
            StreamWriteError::ZeroRttRejected => "0-RTT rejected"@,
        }
    }

    /// What went wrong, in words.
    pub fn text(&self) -> (r: String)
        ensures
            r@ == self.text_spec(),
    {
        match self {
            StreamWriteError::Stopped { code } => {
                let mut text = "sending stopped by peer: error ".to_owned();
                push_decimal(&mut text, *code);
                text
            },
            StreamWriteError::ConnectionLost { .. } => "connection lost".to_owned(),
            StreamWriteError::ClosedStream => "closed stream".to_owned(),
            StreamWriteError::ZeroRttRejected => "0-RTT rejected".to_owned(),
        }
    }
}

impl IoError {
    /// What went wrong, in words. An error with nothing but a kind has no words of its own.
    pub open spec fn text_spec(self) -> Seq<char> {
        match self.cause {
            IoCause::Kind => ""@,
            IoCause::VarintTooLarge => "Varint is too large for u64"@,
            IoCause::ReadSize => "failed to read size"@,
            IoCause::EofReached => "EOF reached"@,
            IoCause::LengthPrefixTooLarge => "Length-prefixed value too large"@,
            IoCause::StreamTooLong => "stream too long"@,
            IoCause::EndOfStream => "unexpected end of stream"@,
            IoCause::ReceiverClosed => "Receiver closed"@,
            IoCause::SenderClosed => "Sender closed"@,
            IoCause::MaxMessageSizeExceeded => "Maximum message size exceeded"@,
            IoCause::NoPathForAddr { port } => "no UDS path for addr 127.0.0.1:"@ + decimal(
                port as nat,
            ),
            IoCause::Connection { source } => source.text_spec(),
            IoCause::StreamWrite { source } => source.text_spec(),
            IoCause::Outside { message } => message@,
        }
    }

    /// What went wrong, in words. An error with nothing but a kind has no words of its own.
    pub fn text(&self) -> (r: String)
        ensures
            r@ == self.text_spec(),
    {
        match &self.cause {
            IoCause::Kind => "".to_owned(),
            IoCause::VarintTooLarge => "Varint is too large for u64".to_owned(),
            IoCause::ReadSize => "failed to read size".to_owned(),
            IoCause::EofReached => "EOF reached".to_owned(),
            IoCause::LengthPrefixTooLarge => "Length-prefixed value too large".to_owned(),
            IoCause::StreamTooLong => "stream too long".to_owned(),
            IoCause::EndOfStream => "unexpected end of stream".to_owned(),
            IoCause::ReceiverClosed => "Receiver closed".to_owned(),
            IoCause::SenderClosed => "Sender closed".to_owned(),
            IoCause::MaxMessageSizeExceeded => "Maximum message size exceeded".to_owned(),
            IoCause::NoPathForAddr { port } => {
                let mut text = "no UDS path for addr 127.0.0.1:".to_owned();
                push_decimal(&mut text, *port as u64);
                text
            },
            IoCause::Connection { source } => source.text(),
            IoCause::StreamWrite { source } => source.text(),
            IoCause::Outside { message } => message.clone(),
        }
    }
}

/// A failed connection is an I/O error with the failure as its cause. Its kind says whether the
/// connection timed out, was reset, or was closed by the peer.
pub proof fn law_connection_errors(e: ConnectionError)
    ensures
        e.io_error().cause == (IoCause::Connection { source: e }),
        e.io_error().kind == ErrorKind::TimedOut <==> e is TimedOut,
        e.io_error().kind == ErrorKind::ConnectionReset <==> e is Reset,
        e.io_error().kind == ErrorKind::ConnectionAborted <==> e is ApplicationClosed
            || e is ConnectionClosed,
        e.kind_spec() == e.io_error().kind,
        e.kind_spec() == ErrorKind::TimedOut || e.kind_spec() == ErrorKind::ConnectionReset
            || e.kind_spec() == ErrorKind::ConnectionAborted || e.kind_spec() == ErrorKind::Other,
        e.io_error().text_spec() == e.text_spec(),
{
}

/// A failed write is an I/O error with the failure as its cause. It is a reset if the peer did not
/// want the data, and else there is no connection to write to.
pub proof fn law_write_errors(e: StreamWriteError)
    ensures
        e.io_error().cause == (IoCause::StreamWrite { source: e }),
        e.io_error().kind == if e is Stopped || e is ZeroRttRejected {
            ErrorKind::ConnectionReset
        } else {
            ErrorKind::NotConnected
        },
        e.io_error().text_spec() == e.text_spec(),
{
}

/// Where the transport or the serializer has words for an error, they are its text. The code of a
/// stopped stream and the port of an unknown address are in the text.
pub proof fn law_texts_keep_what_is_known(
    kind: ErrorKind,
    words: String,
    code: u64,
    port: u16,
    source: ConnectionError,
)
    ensures
        (IoError { kind, cause: IoCause::Outside { message: words } }).text_spec() == words@,
        (ConnectionError::TransportError { message: words }).text_spec() == words@,
        (ConnectionError::ConnectionClosed { message: words }).text_spec() == words@,
        (ConnectionError::ApplicationClosed { code, message: words }).text_spec() == words@,
        (IoError { kind, cause: IoCause::Connection { source } }).text_spec() == source.text_spec(),
        exists|start: Seq<char>|
            (StreamWriteError::Stopped { code }).text_spec() == #[trigger] (start + decimal(
                code as nat,
            )),
        exists|start: Seq<char>|
            (IoError { kind, cause: IoCause::NoPathForAddr { port } }).text_spec() == #[trigger] (
            start + decimal(port as nat)),
{
    assert((StreamWriteError::Stopped { code }).text_spec() == "sending stopped by peer: error "@
        + decimal(code as nat));
    assert((IoError { kind, cause: IoCause::NoPathForAddr { port } }).text_spec()
        == "no UDS path for addr 127.0.0.1:"@ + decimal(port as nat));
}

} // verus!
