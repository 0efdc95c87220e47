//! The course of a call.
//!
//! A call to a local service sends the message into its channel. A call to a remote service opens
//! a stream pair and writes the message to it. If that went out in 0-RTT data that the server
//! then rejected, the data is lost, and it is sent again on a new stream pair.
use crate::channel::{oneshot, SendError};
use crate::error::StreamWriteError;
use crate::rpc::{Error, RequestError, WriteError};
use crate::util::frame_buf::FrameBuf;
use vstd::pervasive::unreached;
use vstd::prelude::*;

verus! {

/// The interaction patterns.
#[derive(Debug, Clone, Copy, PartialEq, Eq, Structural)]
pub enum CallKind {
    /// One request, no response.
    Notify,
    /// One request, one response.
    Rpc,
    /// One request, multiple responses.
    ServerStreaming,
    /// Multiple requests, one response.
    ClientStreaming,
    /// Multiple requests, multiple responses.
    BidiStreaming,
}

impl CallKind {
    /// Whether the message is sent again if 0-RTT data was rejected.
    ///
    /// That is so for the patterns in which the client sends nothing but the message.
    pub open spec fn resends_spec(self) -> bool {
        self is Notify || self is Rpc || self is ServerStreaming
    }

    /// Whether the message is sent again if 0-RTT data was rejected.
    pub fn resends(self) -> (r: bool)
        ensures
            r == self.resends_spec(),
    {
        match self {
            CallKind::Notify | CallKind::Rpc | CallKind::ServerStreaming => true,
            CallKind::ClientStreaming | CallKind::BidiStreaming => false,
        }
    }
}

/// What a remote call does next. A stream pair is of type `P`.
#[derive(Debug)]
pub enum CallStep<P> {
    /// Open a stream pair.
    Open,
    /// Serialize the message and make its frame.
    Prepare,
    /// Write the frame to this stream pair.
    Write(P),
    /// Ask whether 0-RTT data was rejected.
    AskZeroRtt,
    /// The call has this stream pair.
    Done(P),
    /// The call has failed.
    Fail(Error),
}

/// How far a remote call is.
pub enum Phase<P> {
    /// The first stream pair is being opened.
    Opening,
    /// The message is being serialized.
    Preparing(P),
    /// The frame is being written to the first stream pair.
    Writing,
    /// Whether 0-RTT data was rejected is being asked.
    Asking(P),
    /// The second stream pair is being opened.
    Reopening,
    /// The frame is being written to the second stream pair.
    Rewriting,
    /// The call has come to an end.
    Ended,
}

/// A remote call.
pub struct RemoteCall<P> {
    pub kind: CallKind,
    pub phase: Phase<P>,
    /// The frame of the message, once it is there.
    pub frame: Option<FrameBuf>,
}

impl<P> RemoteCall<P> {
    /// The frame is there from the first write on.
    pub open spec fn is_valid(self) -> bool {
        match self.phase {
            Phase::Writing | Phase::Asking(_) | Phase::Reopening | Phase::Rewriting =>
                self.frame is Some,
            _ => true,
        }
    }

    /// Starts a call. The first step is to open a stream pair.
    pub fn new(kind: CallKind) -> (r: Self)
        ensures
            r == (RemoteCall::<P> { kind, phase: Phase::Opening, frame: None }),
            r.is_valid(),
    {
        RemoteCall { kind, phase: Phase::Opening, frame: None }
    }

    /// Takes what opening a stream pair gave. The frame is made once, and the same frame is
    /// written to the second stream pair.
    pub fn on_open(&mut self, res: Result<P, RequestError>) -> (step: CallStep<P>)
        requires
            old(self).phase is Opening || old(self).phase is Reopening,
            old(self).is_valid(),
        ensures
            final(self).is_valid(),
            final(self).kind == old(self).kind,
            final(self).frame == old(self).frame,
            match res {
                Err(source) => {
                    &&& step == CallStep::<P>::Fail(Error::Request { source })
                    &&& final(self).phase is Ended
                },
                Ok(pair) => if old(self).phase is Opening {
                    &&& step == CallStep::<P>::Prepare
                    &&& final(self).phase == Phase::Preparing(pair)
                } else {
                    &&& step == CallStep::Write(pair)
                    &&& final(self).phase is Rewriting
                },
            },
    {
        match res {
            Err(source) => {
                self.phase = Phase::Ended;
                CallStep::Fail(Error::Request { source })
            },
            Ok(pair) => match self.phase {
                Phase::Opening => {
                    self.phase = Phase::Preparing(pair);
                    CallStep::Prepare
                },
                _ => {
                    self.phase = Phase::Rewriting;
                    CallStep::Write(pair)
                },
            },
        }
    }

    /// Takes the frame of the message.
    pub fn on_prepared(&mut self, res: Result<FrameBuf, WriteError>) -> (step: CallStep<P>)
        requires
            old(self).phase is Preparing,
        ensures
            final(self).is_valid(),
            final(self).kind == old(self).kind,
            match res {
                Err(source) => {
                    &&& step == CallStep::<P>::Fail(Error::Write { source })
                    &&& final(self).phase is Ended
                    &&& final(self).frame == old(self).frame
                },
                Ok(frame) => {
                    &&& step == CallStep::Write(old(self).phase->Preparing_0)
                    &&& final(self).phase is Writing
                    &&& final(self).frame == Some(frame)
                },
            },
    {
        let mut phase: Phase<P> = Phase::Ended;
        std::mem::swap(&mut self.phase, &mut phase);
        match res {
            Err(source) => CallStep::Fail(Error::Write { source }),
            Ok(frame) => {
                self.frame = Some(frame);
                self.phase = Phase::Writing;
                match phase {
                    Phase::Preparing(pair) => CallStep::Write(pair),
                    _ => unreached(),
                }
            },
        }
    }

    /// Takes what writing the frame to the stream pair `pair` gave.
    pub fn on_written(&mut self, pair: P, res: Result<(), StreamWriteError>) -> (step: CallStep<P>)
        requires
            old(self).phase is Writing || old(self).phase is Rewriting,
            old(self).is_valid(),
        ensures
            final(self).is_valid(),
            final(self).kind == old(self).kind,
            final(self).frame == old(self).frame,
            match res {
                Err(source) => {
                    &&& step == CallStep::<P>::Fail(
                        Error::Write { source: WriteError::Noq { source } },
                    )
                    &&& final(self).phase is Ended
                },
                Ok(()) => if old(self).phase is Writing && old(self).kind.resends_spec() {
                    &&& step == CallStep::<P>::AskZeroRtt
                    &&& final(self).phase == Phase::Asking(pair)
                } else {
                    &&& step == CallStep::Done(pair)
                    &&& final(self).phase is Ended
                },
            },
    {
        match res {
            Err(source) => {
                self.phase = Phase::Ended;
                CallStep::Fail(Error::Write { source: WriteError::Noq { source } })
            },
            Ok(()) => {
                let first = match self.phase {
                    Phase::Writing => true,
                    _ => false,
                };
                if first && self.kind.resends() {
                    self.phase = Phase::Asking(pair);
                    CallStep::AskZeroRtt
                } else {
                    self.phase = Phase::Ended;
                    CallStep::Done(pair)
                }
            },
        }
    }

    /// Takes whether 0-RTT data was rejected.
    pub fn on_zero_rtt(&mut self, rejected: bool) -> (step: CallStep<P>)
        requires
            old(self).phase is Asking,
            old(self).is_valid(),
        ensures
            final(self).is_valid(),
            final(self).kind == old(self).kind,
            final(self).frame == old(self).frame,
            if rejected {
                &&& step == CallStep::<P>::Open
                &&& final(self).phase is Reopening
            } else {
                &&& step == CallStep::Done(old(self).phase->Asking_0)
                &&& final(self).phase is Ended
            },
    {
        if rejected {
            self.phase = Phase::Reopening;
            CallStep::Open
        } else {
            let mut phase: Phase<P> = Phase::Ended;
            std::mem::swap(&mut self.phase, &mut phase);
            match phase {
                Phase::Asking(pair) => CallStep::Done(pair),
                _ => unreached(),
            }
        }
    }
}

/// What the transport and the serializer give for one call, whichever of it is asked for.
pub struct Answers<P> {
    pub opened: Result<P, RequestError>,
    pub prepared: Result<FrameBuf, WriteError>,
    pub written: Result<(), StreamWriteError>,
    pub rejected: bool,
    pub reopened: Result<P, RequestError>,
    pub rewritten: Result<(), StreamWriteError>,
}

/// What a call comes to.
pub open spec fn call_result<P>(kind: CallKind, answers: Answers<P>) -> Result<P, Error> {
    match (answers.opened, answers.prepared, answers.written) {
        (Err(source), _, _) => Err(Error::Request { source }),
        (Ok(_), Err(source), _) => Err(Error::Write { source }),
        (Ok(_), Ok(_), Err(source)) => Err(Error::Write { source: WriteError::Noq { source } }),
        (Ok(pair), Ok(_), Ok(())) => if kind.resends_spec() && answers.rejected {
            match (answers.reopened, answers.rewritten) {
                (Err(source), _) => Err(Error::Request { source }),
                (Ok(_), Err(source)) => Err(Error::Write { source: WriteError::Noq { source } }),
                (Ok(pair), Ok(())) => Ok(pair),
            }
        } else {
            Ok(pair)
        },
    }
}

/// The frames that a call hands to the transport, one after another.
pub open spec fn frames_written<P>(kind: CallKind, answers: Answers<P>) -> Seq<Seq<u8>> {
    if answers.opened is Err || answers.prepared is Err {
        Seq::empty()
    } else {
        let frame = answers.prepared->Ok_0@;
        if answers.written is Ok && kind.resends_spec() && answers.rejected && answers.reopened is Ok {
            seq![frame, frame]
        } else {
            seq![frame]
        }
    }
}

/// Runs a call by its steps, with what the transport and the serializer give. Returns what it
/// comes to, and the number of times that the frame was written.
pub fn run_call<P>(kind: CallKind, answers: Answers<P>) -> (r: (Result<P, Error>, usize))
    ensures
        r.0 == call_result(kind, answers),
        r.1 == frames_written(kind, answers).len(),
{
    let Answers { opened, prepared, written, rejected, reopened, rewritten } = answers;
    let mut call: RemoteCall<P> = RemoteCall::new(kind);
    match call.on_open(opened) {
        CallStep::Fail(e) => {
            return (Err(e), 0);
        },
        _ => {},
    }
    let pair = match call.on_prepared(prepared) {
        CallStep::Write(pair) => pair,
        CallStep::Fail(e) => {
            return (Err(e), 0);
        },
        _ => unreached(),
    };
    match call.on_written(pair, written) {
        CallStep::Done(pair) => {
            return (Ok(pair), 1);
        },
        CallStep::Fail(e) => {
            return (Err(e), 1);
        },
        _ => {},
    }
    match call.on_zero_rtt(rejected) {
        CallStep::Done(pair) => {
            return (Ok(pair), 1);
        },
        _ => {},
    }
    let pair = match call.on_open(reopened) {
        CallStep::Write(pair) => pair,
        CallStep::Fail(e) => {
            return (Err(e), 1);
        },
        _ => unreached(),
    };
    match call.on_written(pair, rewritten) {
        CallStep::Done(pair) => (Ok(pair), 2),
        CallStep::Fail(e) => (Err(e), 2),
        _ => unreached(),
    }
}

/// A message is written once if 0-RTT data is not rejected, and at most twice if it is. It is the
/// same frame each time.
pub proof fn law_message_is_resent_once<P>(kind: CallKind, answers: Answers<P>)
    ensures
        frames_written(kind, answers).len() <= 2,
        !answers.rejected ==> frames_written(kind, answers).len() <= 1,
        !kind.resends_spec() ==> frames_written(kind, answers).len() <= 1,
        call_result(kind, answers) is Ok ==> frames_written(kind, answers).len() == if answers.rejected
            && kind.resends_spec() {
            2nat
        } else {
            1nat
        },
        forall|i: int|
            0 <= i < frames_written(kind, answers).len() ==> #[trigger] frames_written(
                kind,
                answers,
            )[i] == answers.prepared->Ok_0@,
{
}

/// What sending the message of a call into the channel of a local service leads to.
pub fn on_local_sent(res: Result<(), SendError>) -> (r: Result<(), Error>)
    ensures
        r == match res {
            Ok(()) => Ok(()),
            Err(source) => Err::<(), _>(Error::Send { source }),
        },
{
    match res {
        Ok(()) => Ok(()),
        Err(source) => Err(Error::Send { source }),
    }
}

/// What receiving the response of an rpc call leads to.
pub fn on_response<T>(res: Result<T, oneshot::RecvError>) -> (r: Result<T, Error>)
    ensures
        r == match res {
            Ok(value) => Ok(value),
            Err(source) => Err::<T, _>(Error::OneshotRecv { source }),
        },
{
    match res {
        Ok(value) => Ok(value),
        Err(source) => Err(Error::OneshotRecv { source }),
    }
}

/// A call succeeds exactly if everything that it asks for succeeds, and then it has the stream pair
/// that the message was written to last. Else it reports the first failure.
pub proof fn law_call_result<P>(kind: CallKind, answers: Answers<P>)
    ensures
        ({
            let again = answers.rejected && !(kind is ClientStreaming) && !(kind is BidiStreaming);
            match (answers.opened, answers.prepared, answers.written) {
                (Err(source), _, _) => call_result(kind, answers) == Err::<P, _>(
                    Error::Request { source },
                ),
                (_, Err(source), _) => call_result(kind, answers) == Err::<P, _>(
                    Error::Write { source },
                ),
                (_, _, Err(source)) => call_result(kind, answers) == Err::<P, _>(
                    Error::Write { source: WriteError::Noq { source } },
                ),
                (Ok(pair), _, _) => if !again {
                    call_result(kind, answers) == Ok::<_, Error>(pair)
                } else {
                    match (answers.reopened, answers.rewritten) {
                        (Ok(pair), Ok(())) => call_result(kind, answers) == Ok::<_, Error>(pair),
                        (Err(source), _) => call_result(kind, answers) == Err::<P, _>(
                            Error::Request { source },
                        ),
                        (_, Err(source)) => call_result(kind, answers) == Err::<P, _>(
                            Error::Write { source: WriteError::Noq { source } },
                        ),
                    }
                },
            }
        }),
{
}

/// A message whose 0-RTT data was rejected is sent again if it is all that the client sends, and never
/// if the client goes on to send updates.
pub proof fn law_who_resends(kind: CallKind)
    ensures
        kind.resends_spec() <==> !(kind is ClientStreaming) && !(kind is BidiStreaming),
{
}

/// The message is handed to the transport exactly if there is a stream pair for it and it could be
/// serialized, and each time all of it.
pub proof fn law_frames_written<P>(kind: CallKind, answers: Answers<P>)
    ensures
        frames_written(kind, answers).len() == 0 <==> answers.opened is Err || answers.prepared is Err,
        frames_written(kind, answers).len() == 2 <==> answers.opened is Ok && answers.prepared is Ok
            && answers.written is Ok && answers.rejected && !(kind is ClientStreaming) && !(
        kind is BidiStreaming) && answers.reopened is Ok,
        forall|i: int|
            0 <= i < frames_written(kind, answers).len() ==> answers.prepared is Ok
                && #[trigger] frames_written(kind, answers)[i] == answers.prepared->Ok_0@,
{
}

/// Failures of a local send and of a response are reported, each as what it is, and a response is handed
/// on as it came.
pub proof fn law_call_failures_are_errors<T>(
    sent: Result<(), SendError>,
    on_sent: Result<(), Error>,
    res: Result<T, oneshot::RecvError>,
    response: Result<T, Error>,
)
    requires
        call_ensures(on_local_sent, (sent,), on_sent),
        call_ensures(on_response::<T>, (res,), response),
    ensures
        on_sent is Ok <==> sent is Ok,
        on_sent matches Err(e) ==> (e matches Error::Send { source } && sent == Err::<(), _>(source)),
        response matches Ok(value) ==> res == Ok::<T, oneshot::RecvError>(value),
        response matches Err(e) ==> (e matches Error::OneshotRecv { source } && res == Err::<T, _>(
            source,
        )),
{
}

} // verus!
