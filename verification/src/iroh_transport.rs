//! Listening for connections that carry the identity of the remote, with filters.
use crate::rpc::ERROR_CODE_REQUEST_LIMITED;
use vstd::prelude::*;

verus! {

/// Filter for incoming connections, by the address `A` and the endpoint id `I` of the remote.
///
/// Most implementations only need [`Self::accept`] and/or [`Self::accept_endpoint_id`]. Override
/// [`Self::accept_unvalidated`] for coarse pre-handshake flood protection.
pub trait IrohConnectionFilter<A, I> {
    /// Check whether to accept a connection from the given validated address.
    ///
    /// Returns `true` to accept, `false` to refuse.
    fn accept(&self, _addr: &A) -> (r: bool)
        default_ensures
            r,
    {
        true
    }

    /// Check whether to accept a connection before address validation.
    ///
    /// The address has not been validated at this stage, and may be anything that the remote has
    /// written. It usually should not be used for access-control decisions.
    ///
    /// Returns `true` to accept, `false` to refuse. Defaults to `true`.
    fn accept_unvalidated(&self, _addr: &A) -> (r: bool)
        default_ensures
            r,
    {
        true
    }

    /// Check whether to accept a connection from the given endpoint ID.
    ///
    /// Called after the handshake, when the remote's identity is known.
    ///
    /// Returns `true` to accept, `false` to refuse.
    fn accept_endpoint_id(&self, _id: &I) -> (r: bool)
        default_ensures
            r,
    {
        true
    }
}

/// An [`IrohConnectionFilter`] that accepts all connections.
#[derive(Debug, Clone, Copy)]
pub struct AcceptAll;

impl Default for AcceptAll {
    fn default() -> (r: Self)
        ensures
            r == AcceptAll,
    {
        AcceptAll
    }
}

impl<A, I> IrohConnectionFilter<A, I> for AcceptAll {

}

/// Filter for requests.
pub trait RequestFilter<R> {
    /// Check whether to accept a request. Returns `true` to accept, `false` to drop it.
    fn accept(&self, request: &R) -> bool;
}

/// The answers of a filter for one connection.
#[derive(Debug, Clone, Copy, PartialEq, Eq, Structural)]
pub struct FilterAnswers {
    pub accept: bool,
    pub accept_unvalidated: bool,
    pub accept_endpoint_id: bool,
}

/// What happens to a connection after the handshake.
#[derive(Debug, Clone, Copy, PartialEq, Eq, Structural)]
pub enum AfterHandshake {
    /// Its requests are handled.
    Handle,
    /// It is closed with this code, and [`RATE_LIMITED`] as the reason.
    Close { code: u32 },
}

/// The reason that goes with the code when a filter closes a connection.
pub const RATE_LIMITED: &'static str = "rate limited";

/// Whether a connection gets to the handshake. A remote address that is not validated yet is shown
/// to the filter for such addresses only.
pub open spec fn passes_before_handshake(validated: bool, answers: FilterAnswers) -> bool {
    if validated {
        answers.accept
    } else {
        answers.accept_unvalidated
    }
}

/// Whether a connection passes after the handshake. An address that was not validated before is
/// now.
pub open spec fn passes_after_handshake(validated: bool, answers: FilterAnswers) -> bool {
    (validated || answers.accept) && answers.accept_endpoint_id
}

/// Decides whether a connection gets to the handshake.
pub fn before_handshake(validated: bool, answers: FilterAnswers) -> (r: bool)
    ensures
        r == passes_before_handshake(validated, answers),
{
    if validated {
        answers.accept
    } else {
        answers.accept_unvalidated
    }
}

/// Decides what happens to a connection after the handshake.
pub fn after_handshake(validated: bool, answers: FilterAnswers) -> (r: AfterHandshake)
    ensures
        r == if passes_after_handshake(validated, answers) {
            AfterHandshake::Handle
        } else {
            AfterHandshake::Close { code: ERROR_CODE_REQUEST_LIMITED }
        },
{
    if !validated && !answers.accept {
        return AfterHandshake::Close { code: ERROR_CODE_REQUEST_LIMITED };
    }
    if !answers.accept_endpoint_id {
        return AfterHandshake::Close { code: ERROR_CODE_REQUEST_LIMITED };
    }
    AfterHandshake::Handle
}

/// The requests of a connection are handled exactly if the filter accepts its address and its
/// endpoint id, and its unvalidated address too if it came with one.
pub proof fn law_handled_connections_are_accepted(validated: bool, answers: FilterAnswers)
    ensures
        passes_before_handshake(validated, answers) && passes_after_handshake(validated, answers)
            <==> answers.accept && answers.accept_endpoint_id && (validated
            || answers.accept_unvalidated),
{
}

/// What a listener does next.
#[derive(Debug, Clone, Copy, PartialEq, Eq, Structural)]
pub enum ListenerStep {
    /// Wait for the next event.
    Wait,
    /// Refuse the incoming connection, and wait for the next event.
    Refuse,
    /// Spawn a task for the incoming connection, under this id, and wait for the next event.
    Spawn { id: u64 },
    /// Stop listening.
    Stop,
}

/// What happened to a listener. An incoming connection comes with the address of the remote.
#[derive(Debug, Clone, Copy)]
pub enum ListenerEvent<A> {
    /// The task of a connection has ended.
    TaskEnded,
    /// There is an incoming connection from this address, which is validated or not.
    Incoming { addr: A, validated: bool },
    /// The endpoint was closed.
    Closed,
}

/// A listener with a filter, which numbers the connections that get to the handshake.
pub struct IrohListener<F> {
    pub filter: F,
    pub request_id: u64,
}

impl<F> IrohListener<F> {
    /// Before the first connection.
    pub fn new(filter: F) -> (r: Self)
        ensures
            r.filter == filter,
            r.request_id == 0,
    {
        IrohListener { filter, request_id: 0 }
    }

    /// Takes the next event. The filter is asked about an incoming connection, once.
    pub fn on_event<A, I>(&mut self, event: ListenerEvent<A>) -> (step: ListenerStep) where
        F: IrohConnectionFilter<A, I>,

        requires
            event is Incoming ==> old(self).request_id < u64::MAX,
        ensures
            final(self).filter == old(self).filter,
            match event {
                ListenerEvent::TaskEnded => step is Wait && final(self).request_id == old(
                    self,
                ).request_id,
                ListenerEvent::Closed => step is Stop && final(self).request_id == old(
                    self,
                ).request_id,
                ListenerEvent::Incoming { addr, validated } => {
                    &&& exists|answer: bool| #[trigger]
                        filter_answer(old(self).filter, addr, validated, answer) && step
                            == incoming_step(old(self).request_id, answer)
                    &&& final(self).request_id == if step is Spawn {
                        old(self).request_id + 1
                    } else {
                        old(self).request_id as int
                    }
                    &&& match step {
                        ListenerStep::Spawn { id } => id == old(self).request_id && if validated {
                            call_ensures(F::accept, (&old(self).filter, &addr), true)
                        } else {
                            call_ensures(F::accept_unvalidated, (&old(self).filter, &addr), true)
                        },
                        ListenerStep::Refuse => if validated {
                            call_ensures(F::accept, (&old(self).filter, &addr), false)
                        } else {
                            call_ensures(F::accept_unvalidated, (&old(self).filter, &addr), false)
                        },
                        _ => false,
                    }
                },
            },
    {
        match event {
            ListenerEvent::TaskEnded => ListenerStep::Wait,
            ListenerEvent::Closed => ListenerStep::Stop,
            ListenerEvent::Incoming { addr, validated } => {
                let answer = if validated {
                    self.filter.accept(&addr)
                } else {
                    self.filter.accept_unvalidated(&addr)
                };
                assert(filter_answer(old(self).filter, addr, validated, answer));
                self.on_incoming(answer)
            },
        }
    }

    /// Takes an incoming connection that the filter has answered like this.
    pub fn on_incoming(&mut self, answer: bool) -> (step: ListenerStep)
        requires
            answer ==> old(self).request_id < u64::MAX,
        ensures
            final(self).filter == old(self).filter,
            step == incoming_step(old(self).request_id, answer),
            final(self).request_id == if answer {
                old(self).request_id + 1
            } else {
                old(self).request_id as int
            },
    {
        if !answer {
            return ListenerStep::Refuse;
        }
        let id: u64 = self.request_id;
        self.request_id = id + 1;
        ListenerStep::Spawn { id }
    }
}

/// This can be the answer of the filter to an address.
pub open spec fn filter_answer<A, I, F: IrohConnectionFilter<A, I>>(
    filter: F,
    addr: A,
    validated: bool,
    answer: bool,
) -> bool {
    if validated {
        call_ensures(F::accept, (&filter, &addr), answer)
    } else {
        call_ensures(F::accept_unvalidated, (&filter, &addr), answer)
    }
}

/// What a listener does with an incoming connection, for the answer of its filter.
pub open spec fn incoming_step(request_id: u64, answer: bool) -> ListenerStep {
    if answer {
        ListenerStep::Spawn { id: request_id }
    } else {
        ListenerStep::Refuse
    }
}

/// Asks the filter about a connection after the handshake. It is not asked about the endpoint id if
/// the address is not accepted.
pub fn filter_connection<A, I, F: IrohConnectionFilter<A, I>>(
    filter: &F,
    addr: &A,
    validated: bool,
    id: &I,
) -> (r: AfterHandshake)
    ensures
        exists|answers: FilterAnswers|
            {
                &&& r == if #[trigger] passes_after_handshake(validated, answers) {
                    AfterHandshake::Handle
                } else {
                    AfterHandshake::Close { code: ERROR_CODE_REQUEST_LIMITED }
                }
                &&& validated || call_ensures(F::accept, (filter, addr), answers.accept)
                &&& (validated || answers.accept) ==> call_ensures(
                    F::accept_endpoint_id,
                    (filter, id),
                    answers.accept_endpoint_id,
                )
            },
        match r {
            AfterHandshake::Handle => {
                &&& call_ensures(F::accept_endpoint_id, (filter, id), true)
                &&& validated || call_ensures(F::accept, (filter, addr), true)
            },
            AfterHandshake::Close { code } => {
                &&& code == ERROR_CODE_REQUEST_LIMITED
                &&& call_ensures(F::accept_endpoint_id, (filter, id), false) || (!validated
                    && call_ensures(F::accept, (filter, addr), false))
            },
        },
{
    let accept = if validated {
        true
    } else {
        filter.accept(addr)
    };
    let accept_endpoint_id = if accept {
        filter.accept_endpoint_id(id)
    } else {
        false
    };
    let answers = FilterAnswers { accept, accept_unvalidated: true, accept_endpoint_id };
    after_handshake(validated, answers)
}

/// What happens to a request.
#[derive(Debug, Clone, Copy, PartialEq, Eq, Structural)]
pub enum RequestDecision {
    /// It is handled.
    Handle,
    /// It is dropped: its response stream is reset with this code, and it counts as handled.
    Reset { code: u32 },
}

/// Decides what happens to a request, for the answer of the request filter.
pub fn request_decision(answer: bool) -> (r: RequestDecision)
    ensures
        r == if answer {
            RequestDecision::Handle
        } else {
            RequestDecision::Reset { code: ERROR_CODE_REQUEST_LIMITED }
        },
{
    if answer {
        RequestDecision::Handle
    } else {
        RequestDecision::Reset { code: ERROR_CODE_REQUEST_LIMITED }
    }
}

/// Asks the filter about a request.
pub fn wrap_request_filter<R, F: RequestFilter<R>>(filter: &F, request: &R) -> (r: RequestDecision)
    ensures
        r == RequestDecision::Handle && call_ensures(F::accept, (filter, request), true) || r == (
        RequestDecision::Reset { code: ERROR_CODE_REQUEST_LIMITED }) && call_ensures(
            F::accept,
            (filter, request),
            false,
        ),
{
    request_decision(filter.accept(request))
}

/// Numbers the connections of a protocol handler. After the largest number it starts again at zero.
#[derive(Debug, Clone, Copy, PartialEq, Eq, Structural)]
pub struct RequestIds {
    pub next: u64,
}

impl RequestIds {
    /// Before the first connection.
    pub fn new() -> (r: Self)
        ensures
            r.next == 0,
    {
        RequestIds { next: 0 }
    }

    /// The number of the next connection.
    pub fn next_id(&mut self) -> (id: u64)
        ensures
            id == old(self).next,
            final(self).next == if id == u64::MAX {
                0
            } else {
                id + 1
            },
    {
        let id: u64 = self.next;
        self.next = if id == u64::MAX {
            0
        } else {
            id + 1
        };
        id
    }
}

/// How the handshake of a 0-RTT connection came out.
#[derive(Debug, Clone, Copy, PartialEq, Eq, Structural)]
pub enum ZeroRttStatus {
    /// The server took the 0-RTT data.
    Accepted,
    /// The server did not take the 0-RTT data.
    Rejected,
    /// The handshake has failed.
    Failed,
}

/// Whether 0-RTT data has to be sent again. A failed handshake counts as a rejection.
pub fn zero_rtt_rejected(status: ZeroRttStatus) -> (r: bool)
    ensures
        r == !(status is Accepted),
{
    match status {
        ZeroRttStatus::Accepted => false,
        ZeroRttStatus::Rejected | ZeroRttStatus::Failed => true,
    }
}

/// After the handshake the endpoint id decides, whether or not the address was validated before. An
/// address that was not validated before must be accepted too. The answer for the unvalidated address
/// counts no more.
pub proof fn law_refused_endpoints_are_never_handled(
    validated: bool,
    answers: FilterAnswers,
    unvalidated: bool,
)
    ensures
        !answers.accept_endpoint_id ==> !passes_after_handshake(validated, answers),
        !validated && !answers.accept ==> !passes_after_handshake(validated, answers),
        answers.accept_endpoint_id && answers.accept ==> passes_after_handshake(validated, answers),
        passes_after_handshake(validated, answers) == passes_after_handshake(
            validated,
            FilterAnswers { accept_unvalidated: unvalidated, ..answers },
        ),
        validated ==> passes_after_handshake(validated, answers) == answers.accept_endpoint_id,
{
}

/// Before the handshake only the answer for the kind of address that there is counts.
pub proof fn law_addresses_before_the_handshake(answers: FilterAnswers)
    ensures
        passes_before_handshake(true, answers) == answers.accept,
        passes_before_handshake(false, answers) == answers.accept_unvalidated,
{
}

/// A filter that accepts everything lets every connection through, and one that accepts nothing none.
pub proof fn law_filters_are_obeyed(validated: bool, answer: bool, request_id: u64)
    ensures
        ({
            let answers = FilterAnswers {
                accept: answer,
                accept_unvalidated: answer,
                accept_endpoint_id: answer,
            };
            &&& passes_before_handshake(validated, answers) == answer
            &&& passes_after_handshake(validated, answers) == answer
        }),
        incoming_step(request_id, answer) == if answer {
            ListenerStep::Spawn { id: request_id }
        } else {
            ListenerStep::Refuse
        },
{
}

} // verus!
