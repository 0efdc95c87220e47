//! Channels that abstract over local or remote sending.
use vstd::prelude::*;
use crate::error::{ErrorKind, IoCause, IoError};

pub mod mpsc;
pub mod none;
pub mod oneshot;
pub mod tokio_types;

verus! {

/// Error when sending a oneshot or mpsc message.
///
/// For local communication, the only thing that can go wrong is that the
/// receiver has been dropped.
#[derive(Debug, Clone, PartialEq, Eq)]
pub enum SendError {
    /// The receiver has been closed.
    ReceiverClosed,
    /// The message exceeded the maximum allowed message size.
    MaxMessageSizeExceeded,
    /// The underlying io error.
    Io { source: IoError },
}

impl From<SendError> for IoError {
    fn from(e: SendError) -> (r: Self) {
        match e {
            SendError::ReceiverClosed => IoError {
                kind: ErrorKind::BrokenPipe,
                cause: IoCause::ReceiverClosed,
            },
            SendError::MaxMessageSizeExceeded => IoError {
                kind: ErrorKind::InvalidData,
                cause: IoCause::MaxMessageSizeExceeded,
            },
            SendError::Io { source } => source,
        }
    }
}

impl SendError {
    /// The I/O error that this is.
    pub open spec fn io_error(self) -> IoError {
        match self {
            SendError::ReceiverClosed => IoError {
                kind: ErrorKind::BrokenPipe,
                cause: IoCause::ReceiverClosed,
            },
            SendError::MaxMessageSizeExceeded => IoError {
                kind: ErrorKind::InvalidData,
                cause: IoCause::MaxMessageSizeExceeded,
            },
            SendError::Io { source } => source,
        }
    }
}

impl vstd::std_specs::convert::FromSpecImpl<SendError> for IoError {
    open spec fn obeys_from_spec() -> bool {
        true
    }

    open spec fn from_spec(e: SendError) -> Self {
        e.io_error()
    }
}

impl SendError {
    /// What went wrong, in words.
    pub open spec fn text_spec(self) -> Seq<char> {
        match self {
            SendError::ReceiverClosed => "Receiver closed"@,
            SendError::MaxMessageSizeExceeded => "Maximum message size exceeded"@,
            SendError::Io { .. } => "Io error"@,
        }
    }

    /// What went wrong, in words.
    pub fn text(&self) -> (r: &'static str)
        ensures
            r@ == self.text_spec(),
    {
        match self {
            SendError::ReceiverClosed => "Receiver closed",
            SendError::MaxMessageSizeExceeded => "Maximum message size exceeded",
            SendError::Io { .. } => "Io error",
        }
    }
}

/// An I/O error stays what it is. A receiver that is gone is a broken pipe, and a message that is too
/// large is invalid data.
pub proof fn law_send_errors(e: SendError)
    ensures
        e matches SendError::Io { source } ==> e.io_error() == source,
        e is ReceiverClosed ==> e.io_error().kind == ErrorKind::BrokenPipe && e.io_error().cause
            == IoCause::ReceiverClosed,
        e is MaxMessageSizeExceeded ==> e.io_error().kind == ErrorKind::InvalidData
            && e.io_error().cause == IoCause::MaxMessageSizeExceeded,
{
}

} // verus!
