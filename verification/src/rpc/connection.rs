//! A connection to a remote service that is made when it is first needed.
use crate::error::ConnectionError;
use crate::rpc::RequestError;
use vstd::pervasive::unreached;
use vstd::prelude::*;

verus! {

/// What opening a stream pair asks for next.
#[derive(Debug)]
pub enum OpenStep<C, P> {
    /// Open a stream pair on the connection that is kept.
    OpenKept,
    /// Make a new connection.
    Connect,
    /// Open a stream pair on this new connection.
    OpenNew(C),
    /// Nothing: this is the result.
    Done(Result<P, RequestError>),
}

/// A connection to a remote service that is made when it is first needed, and kept then.
#[derive(Debug)]
pub struct NoqLazyRemoteConnection<C> {
    connection: Option<C>,
}

impl<C> View for NoqLazyRemoteConnection<C> {
    type V = Option<C>;

    /// The connection that is kept.
    closed spec fn view(&self) -> Option<C> {
        self.connection
    }
}

impl<C> NoqLazyRemoteConnection<C> {
    /// Without a connection.
    pub fn new() -> (r: Self)
        ensures
            r@ is None,
    {
        NoqLazyRemoteConnection { connection: None }
    }

    /// The connection that is kept.
    pub fn kept(&self) -> (r: Option<&C>)
        ensures
            r == match self@ {
                Some(c) => Some(&c),
                None => None,
            },
    {
        match &self.connection {
            Some(c) => Some(c),
            None => None,
        }
    }

    /// Starts to open a stream pair: tries to reuse the connection, if there is one.
    pub fn open_bi<P>(&self) -> (step: OpenStep<C, P>)
        ensures
            step == if self@ is Some {
                OpenStep::<C, P>::OpenKept
            } else {
                OpenStep::Connect
            },
    {
        match &self.connection {
            Some(_) => OpenStep::OpenKept,
            None => OpenStep::Connect,
        }
    }

    /// Takes what the connection that is kept gave. If it failed, it is forgotten, and a new one
    /// is tried, just once.
    pub fn on_kept<P>(&mut self, res: Result<P, ConnectionError>) -> (step: OpenStep<C, P>)
        ensures
            match res {
                Ok(pair) => step == OpenStep::<C, P>::Done(Ok(pair)) && final(self)@ == old(self)@,
                Err(_) => step == OpenStep::<C, P>::Connect && final(self)@ is None,
            },
    {
        match res {
            Ok(pair) => OpenStep::Done(Ok(pair)),
            Err(_) => {
                self.connection = None;
                OpenStep::Connect
            },
        }
    }

    /// Takes what connecting gave.
    pub fn on_connected<P>(&self, res: Result<C, RequestError>) -> (step: OpenStep<C, P>)
        ensures
            step == match res {
                Ok(conn) => OpenStep::<C, P>::OpenNew(conn),
                Err(e) => OpenStep::Done(Err(e)),
            },
    {
        match res {
            Ok(conn) => OpenStep::OpenNew(conn),
            Err(e) => OpenStep::Done(Err(e)),
        }
    }

    /// Takes what the new connection `conn` gave. It is kept only if it works.
    pub fn on_opened<P>(&mut self, conn: C, res: Result<P, ConnectionError>) -> (r: Result<
        P,
        RequestError,
    >)
        ensures
            match res {
                Ok(pair) => r == Ok::<_, RequestError>(pair) && final(self)@ == Some(conn),
                Err(source) => r == Err::<P, _>(RequestError::Connection { source }) && final(self)@
                    == old(self)@,
            },
    {
        match res {
            Ok(pair) => {
                self.connection = Some(conn);
                Ok(pair)
            },
            Err(source) => Err(RequestError::Connection { source }),
        }
    }
}

/// What the transport gives for one opening of a stream pair, whichever of it is asked for.
pub struct Attempts<C, P> {
    /// The stream pair on the connection that is kept.
    pub kept: Result<P, ConnectionError>,
    /// The new connection.
    pub connected: Result<C, RequestError>,
    /// The stream pair on the new connection.
    pub opened: Result<P, ConnectionError>,
}

/// One opening of a stream pair, from the connection that is kept before it: what it returns, the
/// connection that is kept afterwards, and how many times a connection was made.
pub open spec fn opening<C, P>(kept: Option<C>, attempts: Attempts<C, P>) -> (
    Result<P, RequestError>,
    Option<C>,
    nat,
) {
    if kept is Some && attempts.kept is Ok {
        (Ok(attempts.kept->Ok_0), kept, 0)
    } else {
        match attempts.connected {
            Err(e) => (Err(e), None, 1),
            Ok(conn) => match attempts.opened {
                Ok(pair) => (Ok(pair), Some(conn), 1),
                Err(source) => (Err(RequestError::Connection { source }), None, 1),
            },
        }
    }
}

/// Opens a stream pair by the steps of [`NoqLazyRemoteConnection`], with what the transport gives.
/// Returns the result, and how many times a connection was made.
pub fn run_open_bi<C, P>(lazy: &mut NoqLazyRemoteConnection<C>, attempts: Attempts<C, P>) -> (r: (
    Result<P, RequestError>,
    usize,
))
    ensures
        (r.0, final(lazy)@, r.1 as nat) == opening(old(lazy)@, attempts),
{
    let Attempts { kept, connected, opened } = attempts;
    let step: OpenStep<C, P> = match lazy.open_bi::<P>() {
        OpenStep::OpenKept => lazy.on_kept(kept),
        step => step,
    };
    match step {
        OpenStep::Connect => match lazy.on_connected::<P>(connected) {
            OpenStep::OpenNew(conn) => (lazy.on_opened(conn, opened), 1),
            OpenStep::Done(r) => (r, 1),
            _ => unreached(),
        },
        OpenStep::Done(r) => (r, 0),
        _ => unreached(),
    }
}

/// A connection that works is kept and reused: a stream pair is opened with at most one new
/// connection, with none if the one that is kept still works, and a connection is kept afterwards
/// exactly if a stream pair was opened.
pub proof fn law_connects_at_most_once<C, P>(kept: Option<C>, attempts: Attempts<C, P>)
    ensures
        opening(kept, attempts).2 <= 1,
        opening(kept, attempts).2 == 0 <==> kept is Some && attempts.kept is Ok,
        opening(kept, attempts).1 is Some <==> opening(kept, attempts).0 is Ok,
{
}

/// What opening a stream pair returns comes from the connection that was used for it, and that
/// connection is kept. A connection that fails is not kept, and the error is that of the new one.
pub proof fn law_opening_result<C, P>(kept: Option<C>, attempts: Attempts<C, P>)
    ensures
        opening(kept, attempts).2 == 0 ==> {
            &&& kept is Some
            &&& opening(kept, attempts).0 == Ok::<_, RequestError>(attempts.kept->Ok_0)
            &&& attempts.kept is Ok
            &&& opening(kept, attempts).1 == kept
        },
        opening(kept, attempts).2 != 0 ==> match (attempts.connected, attempts.opened) {
            (Ok(conn), Ok(pair)) => {
                &&& opening(kept, attempts).0 == Ok::<_, RequestError>(pair)
                &&& opening(kept, attempts).1 == Some(conn)
            },
            (Ok(_), Err(source)) => {
                &&& opening(kept, attempts).0 == Err::<P, _>(RequestError::Connection { source })
                &&& opening(kept, attempts).1 is None
            },
            (Err(e), _) => {
                &&& opening(kept, attempts).0 == Err::<P, _>(e)
                &&& opening(kept, attempts).1 is None
            },
        },
{
}

} // verus!
