//! Streams of items with an explicit end of stream marker.
//!
//! The marker makes sure that unsuccessful termination is not mistaken for a successful end of
//! stream.
use crate::channel::mpsc::RecvError;
use crate::channel::SendError;
use crate::error::{ErrorKind, IoCause, IoError};
use crate::rpc::Error;
use vstd::prelude::*;

verus! {

/// A failed stream of items.
#[derive(Debug)]
pub enum StreamError<E> {
    /// The stream could not be opened, or broke.
    Transport(Error),
    /// The other side ended the stream with this error.
    Remote(E),
}

impl<E> From<Error> for StreamError<E> {
    fn from(e: Error) -> (r: Self) {
        StreamError::Transport(e)
    }
}

impl<E> vstd::std_specs::convert::FromSpecImpl<Error> for StreamError<E> {
    open spec fn obeys_from_spec() -> bool {
        true
    }

    open spec fn from_spec(e: Error) -> Self {
        StreamError::Transport(e)
    }
}

impl<E> From<RecvError> for StreamError<E> {
    fn from(e: RecvError) -> (r: Self) {
        StreamError::Transport(Error::MpscRecv { source: e })
    }
}

impl<E> vstd::std_specs::convert::FromSpecImpl<RecvError> for StreamError<E> {
    open spec fn obeys_from_spec() -> bool {
        true
    }

    open spec fn from_spec(e: RecvError) -> Self {
        StreamError::Transport(Error::MpscRecv { source: e })
    }
}

/// An item, an error, or the end of a stream.
#[derive(Debug, Clone)]
pub enum Item<T, E> {
    Value(T),
    Failure(E),
    Done,
}

/// Trait for an enum that has three variants, item, error, and done.
pub trait StreamItem: Sized {
    /// The error case of the item enum.
    type Error;

    /// The item case of the item enum.
    type Item;

    /// What this item is: a result, or nothing for the end of stream marker.
    spec fn result_opt(self) -> Option<Result<Self::Item, Self::Error>>;

    /// The item that stands for a result.
    spec fn of_result(item: Result<Self::Item, Self::Error>) -> Self;

    /// The end of stream marker.
    spec fn marker() -> Self;

    /// An item stands for the result that it was made from, and the marker stands for none.
    proof fn stands_for(item: Result<Self::Item, Self::Error>)
        ensures
            Self::of_result(item).result_opt() == Some(item),
            Self::marker().result_opt() is None,
    ;

    /// Converts the stream item into either None for end of stream, or a Result containing the
    /// item or an error. Error is assumed as a termination, so if you get error you won't get an
    /// additional end of stream marker.
    fn into_result_opt(self) -> (r: Option<Result<Self::Item, Self::Error>>)
        ensures
            r == self.result_opt(),
    ;

    /// Converts a result into the item enum.
    fn from_result(item: Result<Self::Item, Self::Error>) -> (r: Self)
        ensures
            r == Self::of_result(item),
    ;

    /// Produces a done marker for the item enum.
    fn done() -> (r: Self)
        ensures
            r == Self::marker(),
    ;
}

impl<T, E> StreamItem for Item<T, E> {
    type Error = E;

    type Item = T;

    open spec fn result_opt(self) -> Option<Result<T, E>> {
        match self {
            Item::Value(item) => Some(Ok(item)),
            Item::Failure(error) => Some(Err(error)),
            Item::Done => None,
        }
    }

    open spec fn of_result(item: Result<T, E>) -> Self {
        match item {
            Ok(item) => Item::Value(item),
            Err(err) => Item::Failure(err),
        }
    }

    open spec fn marker() -> Self {
        Item::Done
    }

    proof fn stands_for(item: Result<T, E>) {
    }

    fn into_result_opt(self) -> (r: Option<Result<T, E>>) {
        match self {
            Item::Value(item) => Some(Ok(item)),
            Item::Failure(error) => Some(Err(error)),
            Item::Done => None,
        }
    }

    fn from_result(item: Result<T, E>) -> (r: Self) {
        match item {
            Ok(item) => Item::Value(item),
            Err(err) => Item::Failure(err),
        }
    }

    fn done() -> (r: Self) {
        Item::Done
    }
}

/// The items that are sent for some results: one for each, up to the first error, and the marker
/// if there is no error.
pub open spec fn forwarded<T: StreamItem>(results: Seq<Result<T::Item, T::Error>>) -> Seq<T>
    decreases results.len(),
{
    if results.len() == 0 {
        seq![T::marker()]
    } else if results[0] is Err {
        seq![T::of_result(results[0])]
    } else {
        seq![T::of_result(results[0])] + forwarded::<T>(results.drop_first())
    }
}

/// The next item to send for a stream or an iterator that gave `next`, and whether it is the last.
pub fn forward_next<T: StreamItem>(next: Option<Result<T::Item, T::Error>>) -> (r: (T, bool))
    ensures
        r == match next {
            Some(item) => (T::of_result(item), item is Err),
            None => (T::marker(), true),
        },
{
    match next {
        Some(item) => {
            let last = item.is_err();
            (T::from_result(item), last)
        },
        None => (T::done(), true),
    }
}

/// What follows the sending of an item: the result, or `None` if there are more items to send.
pub fn forward_sent(res: Result<(), SendError>, last: bool) -> (r: Option<Result<(), SendError>>)
    ensures
        r == match res {
            Err(e) => Some(Err::<(), _>(e)),
            Ok(()) => if last {
                Some(Ok(()))
            } else {
                None
            },
        },
{
    match res {
        Err(e) => Some(Err(e)),
        Ok(()) => if last {
            Some(Ok(()))
        } else {
            None
        },
    }
}

/// The items to send for the items of an iterator.
pub fn forward_iter<T: StreamItem>(results: Vec<Result<T::Item, T::Error>>) -> (r: Vec<T>)
    ensures
        r@ == forwarded::<T>(results@),
{
    let ghost all = results@;
    let mut left = results;
    let mut sent: Vec<T> = Vec::new();
    assert(sent@ + forwarded::<T>(all) =~= forwarded::<T>(all));
    loop
        invariant
            all == results@,
            sent@ + forwarded::<T>(left@) == forwarded::<T>(all),
        decreases left.len(),
    {
        let ghost here = left@;
        let next = if left.len() == 0 {
            None
        } else {
            Some(left.remove(0))
        };
        let ghost so_far = sent@;
        let (item, last) = forward_next::<T>(next);
        sent.push(item);
        proof {
            assert(sent@ =~= so_far + seq![item]);
            if here.len() > 0 {
                assert(left@ =~= here.drop_first());
            }
            assert(sent@ + forwarded::<T>(left@) =~= so_far + (seq![item] + forwarded::<T>(
                left@,
            )));
        }
        if last {
            return sent;
        }
    }
}

/// The error of a stream that ends without the marker.
pub open spec fn eof_spec() -> RecvError {
    RecvError::Io {
        source: IoError { kind: ErrorKind::UnexpectedEof, cause: IoCause::EndOfStream },
    }
}

fn eof() -> (e: RecvError)
    ensures
        e == eof_spec(),
{
    RecvError::Io {
        source: IoError { kind: ErrorKind::UnexpectedEof, cause: IoCause::EndOfStream },
    }
}

/// How far a stream of items has come.
#[derive(Debug, Clone, Copy, PartialEq, Eq, Structural)]
pub enum State {
    /// The receiver is not there yet.
    Init,
    /// Items are received.
    Receiving,
    /// The stream has ended.
    Done,
}

/// What a stream of items needs for its next item.
#[derive(Debug, Clone, Copy, PartialEq, Eq, Structural)]
pub enum Need {
    /// The receiver.
    Open,
    /// The next message of the receiver.
    Receive,
    /// Nothing: the stream has ended.
    Nothing,
}

/// What the stream does with a received message: the item that it yields, and how far it is then.
pub open spec fn received_spec<T: StreamItem>(res: Result<Option<T>, RecvError>) -> (
    Option<Result<T::Item, StreamError<T::Error>>>,
    State,
) {
    match res {
        Ok(Some(item)) => match item.result_opt() {
            None => (None, State::Done),
            Some(Ok(i)) => (Some(Ok(i)), State::Receiving),
            Some(Err(e)) => (Some(Err(StreamError::Remote(e))), State::Done),
        },
        Ok(None) => (
            Some(Err(StreamError::Transport(Error::MpscRecv { source: eof_spec() }))),
            State::Done,
        ),
        Err(e) => (Some(Err(StreamError::Transport(Error::MpscRecv { source: e }))), State::Done),
    }
}

impl State {
    /// What is needed for the next item.
    pub fn need(&self) -> (r: Need)
        ensures
            r == match *self {
                State::Init => Need::Open,
                State::Receiving => Need::Receive,
                State::Done => Need::Nothing,
            },
    {
        match self {
            State::Init => Need::Open,
            State::Receiving => Need::Receive,
            State::Done => Need::Nothing,
        }
    }

    /// Takes whether the receiver could be had. If not, that is the only item of the stream.
    pub fn on_open<T: StreamItem>(&mut self, res: Result<(), Error>) -> (r: Option<
        Result<T::Item, StreamError<T::Error>>,
    >)
        requires
            *old(self) is Init,
        ensures
            match res {
                Ok(()) => r is None && *final(self) is Receiving,
                Err(e) => {
                    &&& r == Some(
                        Err::<T::Item, StreamError<T::Error>>(StreamError::Transport(e)),
                    )
                    &&& *final(self) is Done
                },
            },
    {
        match res {
            Ok(()) => {
                *self = State::Receiving;
                None
            },
            Err(e) => {
                *self = State::Done;
                Some(Err(StreamError::Transport(e)))
            },
        }
    }

    /// Takes a received message, and returns the next item of the stream, or `None` at its end.
    pub fn on_received<T: StreamItem>(&mut self, res: Result<Option<T>, RecvError>) -> (r: Option<
        Result<T::Item, StreamError<T::Error>>,
    >)
        requires
            *old(self) is Receiving,
        ensures
            (r, *final(self)) == received_spec(res),
    {
        match res {
            Ok(Some(item)) => match item.into_result_opt() {
                None => {
                    *self = State::Done;
                    None
                },
                Some(Ok(i)) => Some(Ok(i)),
                Some(Err(e)) => {
                    *self = State::Done;
                    Some(Err(StreamError::Remote(e)))
                },
            },
            Ok(None) => {
                *self = State::Done;
                Some(Err(StreamError::Transport(Error::MpscRecv { source: eof() })))
            },
            Err(e) => {
                *self = State::Done;
                Some(Err(StreamError::Transport(Error::MpscRecv { source: e })))
            },
        }
    }
}

/// The items that a stream yields for messages that are received in this order.
pub open spec fn yielded<T: StreamItem>(received: Seq<Result<Option<T>, RecvError>>) -> Seq<
    Result<T::Item, StreamError<T::Error>>,
>
    decreases received.len(),
{
    if received.len() == 0 {
        Seq::empty()
    } else {
        match received_spec(received[0]) {
            (None, _) => Seq::empty(),
            (Some(item), State::Receiving) => seq![item] + yielded(received.drop_first()),
            (Some(item), _) => seq![item],
        }
    }
}

/// What collecting some items of a stream comes to: all of them, or the first error.
pub open spec fn collected<I, E>(items: Seq<Result<I, E>>) -> Result<Seq<I>, E>
    decreases items.len(),
{
    if items.len() == 0 {
        Ok(Seq::empty())
    } else {
        match items[0] {
            Err(e) => Err(e),
            Ok(i) => match collected(items.drop_first()) {
                Err(e) => Err(e),
                Ok(rest) => Ok(seq![i] + rest),
            },
        }
    }
}

/// A collection that is being filled from a stream of items.
pub struct Collect<I> {
    pub items: Vec<I>,
}

impl<I> Collect<I> {
    /// An empty collection.
    pub fn new() -> (r: Self)
        ensures
            r.items@ == Seq::<I>::empty(),
    {
        Collect { items: Vec::new() }
    }

    /// Takes the next item of the stream. An error ends the collecting.
    pub fn on_item<E>(&mut self, item: Result<I, E>) -> (r: Result<(), E>)
        ensures
            match item {
                Ok(i) => r is Ok && final(self).items@ == old(self).items@.push(i),
                Err(e) => r == Err::<(), E>(e) && final(self).items@ == old(self).items@,
            },
    {
        match item {
            Ok(i) => {
                self.items.push(i);
                Ok(())
            },
            Err(e) => Err(e),
        }
    }
}

/// Collects the items of a stream, for a receiver that can be had or not, and the messages that it
/// gives until the stream has ended.
pub fn try_collect<T: StreamItem>(
    opened: Result<(), Error>,
    received: Vec<Result<Option<T>, RecvError>>,
) -> (r: Result<Vec<T::Item>, StreamError<T::Error>>)
    ensures
        match (opened, collected(yielded(received@))) {
            (Err(e), _) => r == Err::<Vec<T::Item>, StreamError<T::Error>>(
                StreamError::Transport(e),
            ),
            (Ok(()), Err(e)) => r == Err::<Vec<T::Item>, _>(e),
            (Ok(()), Ok(items)) => r matches Ok(v) && v@ == items,
        },
{
    let mut state = State::Init;
    let mut left = received;
    let mut collect = Collect::new();
    match state.on_open::<T>(opened) {
        None => {},
        Some(Ok(_)) => {},
        Some(Err(e)) => {
            return Err(e);
        },
    }
    let ghost all = left@;
    let ghost whole = collected(yielded(all));
    assert(opened is Ok);
    proof {
        lemma_collect_prefix::<T::Item, StreamError<T::Error>>(
            Seq::empty(),
            collected(yielded(all)),
        );
    }
    while left.len() > 0
        invariant
            all == received@,
            opened is Ok,
            state is Receiving,
            whole == collected(yielded(all)),
            whole == prefixed(collect.items@, collected(yielded(left@))),
        decreases left.len(),
    {
        let ghost here = left@;
        let res = left.remove(0);
        let ghost before = collect.items@;
        assert(left@ =~= here.drop_first());
        match state.on_received(res) {
            None => {
                assert(yielded(here) =~= Seq::empty());
                assert(before + Seq::<T::Item>::empty() =~= before);
                return Ok(collect.items);
            },
            Some(item) => {
                proof {
                    assert(yielded(here)[0] == item);
                    if state is Receiving {
                        assert(yielded(here).drop_first() =~= yielded(left@));
                    }
                }
                match collect.on_item(item) {
                    Ok(()) => {
                        proof {
                            lemma_prefixed_push(
                                before,
                                collect.items@.last(),
                                collected(yielded(left@)),
                            );
                            assert(collect.items@ =~= before.push(collect.items@.last()));
                        }
                    },
                    Err(e) => {
                        return Err(e);
                    },
                }
            },
        }
    }
    assert(yielded(left@) =~= Seq::empty());
    assert(collect.items@ + Seq::<T::Item>::empty() =~= collect.items@);
    Ok(collect.items)
}

/// A collected result with some items before it.
spec fn prefixed<I, E>(before: Seq<I>, r: Result<Seq<I>, E>) -> Result<Seq<I>, E> {
    match r {
        Ok(items) => Ok(before + items),
        Err(e) => Err(e),
    }
}

proof fn lemma_collect_prefix<I, E>(before: Seq<I>, r: Result<Seq<I>, E>)
    requires
        before.len() == 0,
    ensures
        prefixed(before, r) == r,
{
    if let Ok(items) = r {
        assert(before + items =~= items);
    }
}

proof fn lemma_prefixed_push<I, E>(before: Seq<I>, i: I, r: Result<Seq<I>, E>)
    ensures
        prefixed(before.push(i), r) == prefixed(before, prefixed(seq![i], r)),
{
    if let Ok(items) = r {
        assert(before.push(i) + items =~= before + (seq![i] + items));
    }
}

/// Messages that arrive as they were sent.
pub open spec fn arrived<T>(sent: Seq<T>) -> Seq<Result<Option<T>, RecvError>> {
    Seq::new(sent.len(), |i: int| Ok(Some(sent[i])))
}

/// The items that a stream yields for results that the other side has forwarded: all of them up to
/// the first error, which is an error of the remote.
pub open spec fn remote_results<I, E>(results: Seq<Result<I, E>>) -> Seq<
    Result<I, StreamError<E>>,
>
    decreases results.len(),
{
    if results.len() == 0 {
        Seq::empty()
    } else {
        match results[0] {
            Err(e) => seq![Err(StreamError::Remote(e))],
            Ok(i) => seq![Ok(i)] + remote_results(results.drop_first()),
        }
    }
}

/// A stream that receives what was forwarded yields the results that were forwarded, up to the
/// first error, and then ends. Whatever arrives after that has no effect.
pub proof fn law_forwarded_items_arrive<T: StreamItem>(
    results: Seq<Result<T::Item, T::Error>>,
    after: Seq<Result<Option<T>, RecvError>>,
)
    ensures
        yielded(arrived(forwarded::<T>(results)) + after) == remote_results(results),
    decreases results.len(),
{
    let sent = forwarded::<T>(results);
    let received = arrived(sent) + after;
    if results.len() == 0 {
        T::stands_for(arbitrary());
        assert(received[0] == Ok::<Option<T>, RecvError>(Some(T::marker())));
    } else {
        T::stands_for(results[0]);
        assert(received[0] == Ok::<Option<T>, RecvError>(Some(T::of_result(results[0]))));
        if results[0] is Ok {
            law_forwarded_items_arrive::<T>(results.drop_first(), after);
            let rest = forwarded::<T>(results.drop_first());
            assert(received.drop_first() =~= arrived(rest) + after);
        }
    }
}

/// Items that were forwarded without an error are collected in order.
pub proof fn law_forwarded_items_are_collected<T: StreamItem>(items: Seq<T::Item>)
    ensures
        collected(
            yielded(
                arrived(
                    forwarded::<T>(
                        Seq::new(items.len(), |i: int| Ok::<T::Item, T::Error>(items[i])),
                    ),
                ),
            ),
        ) == Ok::<Seq<T::Item>, StreamError<T::Error>>(items),
    decreases items.len(),
{
    let results = Seq::new(items.len(), |i: int| Ok::<T::Item, T::Error>(items[i]));
    law_forwarded_items_arrive::<T>(results, Seq::empty());
    let sent = arrived(forwarded::<T>(results));
    assert(sent + Seq::<Result<Option<T>, RecvError>>::empty() =~= sent);
    lemma_collect_remote::<T>(items);
}

proof fn lemma_collect_remote<T: StreamItem>(items: Seq<T::Item>)
    ensures
        collected(
            remote_results(Seq::new(items.len(), |i: int| Ok::<T::Item, T::Error>(items[i]))),
        ) == Ok::<Seq<T::Item>, StreamError<T::Error>>(items),
    decreases items.len(),
{
    let results = Seq::new(items.len(), |i: int| Ok::<T::Item, T::Error>(items[i]));
    if items.len() == 0 {
        assert(remote_results(results) =~= Seq::empty());
        assert(items =~= Seq::empty());
    } else {
        let rest = items.drop_first();
        lemma_collect_remote::<T>(rest);
        assert(results.drop_first() =~= Seq::new(
            rest.len(),
            |i: int| Ok::<T::Item, T::Error>(rest[i]),
        ));
        let all = remote_results(results);
        assert(all[0] == Ok::<T::Item, StreamError<T::Error>>(items[0]));
        assert(all.drop_first() =~= remote_results(results.drop_first()));
        assert(seq![items[0]] + rest =~= items);
    }
}

/// A stream yields at most one error, and nothing after it.
pub proof fn law_error_ends_stream<T: StreamItem>(
    received: Seq<Result<Option<T>, RecvError>>,
    i: int,
)
    requires
        0 <= i < yielded(received).len(),
        yielded(received)[i] is Err,
    ensures
        i == yielded(received).len() - 1,
    decreases received.len(),
{
    if received.len() > 0 {
        if let (Some(item), State::Receiving) = received_spec(received[0]) {
            let rest = received.drop_first();
            if i > 0 {
                assert(yielded(received)[i] == yielded(rest)[i - 1]);
                law_error_ends_stream(rest, i - 1);
            }
        }
    }
}

/// A receiver that closes before the end of stream marker is an error, not the end of the stream.
pub proof fn law_missing_marker<T: StreamItem>(items: Seq<T>, after: Seq<Result<Option<T>, RecvError>>)
    requires
        forall|i: int| 0 <= i < items.len() ==> (#[trigger] items[i]).result_opt() matches Some(Ok(_)),
    ensures
        yielded(arrived(items) + seq![Ok::<Option<T>, RecvError>(None)] + after).last() == Err::<
            T::Item,
            StreamError<T::Error>,
        >(StreamError::Transport(Error::MpscRecv { source: eof_spec() })),
        yielded(arrived(items) + seq![Ok::<Option<T>, RecvError>(None)] + after).len() == items.len()
            + 1,
    decreases items.len(),
{
    let received = arrived(items) + seq![Ok::<Option<T>, RecvError>(None)] + after;
    if items.len() == 0 {
        assert(received[0] == Ok::<Option<T>, RecvError>(None));
    } else {
        let rest = items.drop_first();
        assert(received[0] == Ok::<Option<T>, RecvError>(Some(items[0])));
        assert(items[0].result_opt() matches Some(Ok(_)));
        assert forall|i: int| 0 <= i < rest.len() implies (
        #[trigger] rest[i]).result_opt() matches Some(Ok(_)) by {
            assert(rest[i] == items[i + 1]);
        }
        law_missing_marker(rest, after);
        assert(received.drop_first() =~= arrived(rest) + seq![Ok::<Option<T>, RecvError>(None)]
            + after);
    }
}

/// Messages that all carry a value, as they arrive.
pub open spec fn are_values<T: StreamItem>(
    received: Seq<Result<Option<T>, RecvError>>,
    values: Seq<T::Item>,
) -> bool {
    &&& received.len() == values.len()
    &&& forall|i: int|
        0 <= i < received.len() ==> (#[trigger] received[i] matches Ok(Some(item))
            && item.result_opt() == Some(Ok::<T::Item, T::Error>(values[i])))
}

/// A stream yields the values that arrive, in order, up to the first message that carries none. If that
/// is the marker, the stream has ended. If it is an error of the remote, if the receiver closes, or if
/// receiving fails, the stream yields that error and has ended. What arrives afterwards has no effect.
pub proof fn law_stream_yields<T: StreamItem>(
    before: Seq<Result<Option<T>, RecvError>>,
    values: Seq<T::Item>,
    end: Result<Option<T>, RecvError>,
    after: Seq<Result<Option<T>, RecvError>>,
)
    requires
        are_values(before, values),
    ensures
        ({
            let items = yielded(before + seq![end] + after);
            let oks = Seq::new(
                values.len(),
                |i: int| Ok::<T::Item, StreamError<T::Error>>(values[i]),
            );
            match end {
                Err(e) => items == oks.push(
                    Err(StreamError::Transport(Error::MpscRecv { source: e })),
                ),
                Ok(None) => exists|e: IoError|
                    {
                        &&& e.kind == ErrorKind::UnexpectedEof
                        &&& items == oks.push(
                            #[trigger] transport_error::<T::Item, T::Error>(e),
                        )
                    },
                Ok(Some(item)) => match item.result_opt() {
                    None => items == oks,
                    Some(Err(e)) => items == oks.push(Err(StreamError::Remote(e))),
                    Some(Ok(_)) => true,
                },
            }
        }),
        yielded(before) == Seq::new(
            values.len(),
            |i: int| Ok::<T::Item, StreamError<T::Error>>(values[i]),
        ),
    decreases before.len(),
{
    let received = before + seq![end] + after;
    let oks = Seq::new(values.len(), |i: int| Ok::<T::Item, StreamError<T::Error>>(values[i]));
    if before.len() == 0 {
        assert(received[0] == end);
        assert(oks =~= Seq::empty());
        assert(yielded(before) =~= oks);
        if let Ok(None) = end {
            let e = IoError { kind: ErrorKind::UnexpectedEof, cause: IoCause::EndOfStream };
            assert(yielded(received) =~= oks.push(transport_error::<T::Item, T::Error>(e)));
        }
        if let Err(e) = end {
            assert(yielded(received) =~= oks.push(
                Err(StreamError::Transport(Error::MpscRecv { source: e })),
            ));
        }
        if let Ok(Some(item)) = end {
            if let Some(Err(e)) = item.result_opt() {
                assert(yielded(received) =~= oks.push(Err(StreamError::Remote(e))));
            }
            if item.result_opt() is None {
                assert(yielded(received) =~= oks);
            }
        }
    } else {
        let rest = before.drop_first();
        let rest_values = values.drop_first();
        assert forall|i: int| 0 <= i < rest.len() implies (#[trigger] rest[i] matches Ok(Some(item))
            && item.result_opt() == Some(Ok::<T::Item, T::Error>(rest_values[i]))) by {
            assert(rest[i] == before[i + 1]);
        }
        law_stream_yields(rest, rest_values, end, after);
        let rest_oks = Seq::new(
            rest_values.len(),
            |i: int| Ok::<T::Item, StreamError<T::Error>>(rest_values[i]),
        );
        assert(received.drop_first() =~= rest + seq![end] + after);
        assert(received[0] == before[0]);
        let first = Ok::<T::Item, StreamError<T::Error>>(values[0]);
        assert(oks =~= seq![first] + rest_oks);
        assert(yielded(received) == seq![first] + yielded(rest + seq![end] + after));
        assert(yielded(before) =~= oks);
        if let Ok(None) = end {
            let e = choose|e: IoError|
                {
                    &&& e.kind == ErrorKind::UnexpectedEof
                    &&& yielded(rest + seq![end] + after) == rest_oks.push(
                        #[trigger] transport_error::<T::Item, T::Error>(e),
                    )
                };
            assert(yielded(received) =~= oks.push(transport_error::<T::Item, T::Error>(e)));
        }
        if let Err(e) = end {
            assert(yielded(received) =~= oks.push(
                Err(StreamError::Transport(Error::MpscRecv { source: e })),
            ));
        }
        if let Ok(Some(item)) = end {
            if let Some(Err(e)) = item.result_opt() {
                assert(yielded(received) =~= oks.push(Err(StreamError::Remote(e))));
            }
            if item.result_opt() is None {
                assert(yielded(received) =~= oks);
            }
        }
    }
}

/// The item for an I/O error of the receiver.
pub open spec fn transport_error<I, E>(source: IoError) -> Result<I, StreamError<E>> {
    Err(StreamError::Transport(Error::MpscRecv { source: RecvError::Io { source } }))
}

/// Collecting gives all values in order if there is no error among them, and else the first error.
pub proof fn law_collecting<I, E>(values: Seq<I>, error: E, after: Seq<Result<I, E>>)
    ensures
        collected(Seq::new(values.len(), |i: int| Ok::<I, E>(values[i]))) == Ok::<_, E>(values),
        collected(
            Seq::new(values.len(), |i: int| Ok::<I, E>(values[i])) + seq![Err::<I, E>(error)] + after,
        ) == Err::<Seq<I>, _>(error),
    decreases values.len(),
{
    let oks = Seq::new(values.len(), |i: int| Ok::<I, E>(values[i]));
    let all = oks + seq![Err::<I, E>(error)] + after;
    if values.len() == 0 {
        assert(oks =~= Seq::empty());
        assert(values =~= Seq::empty());
        assert(all[0] == Err::<I, E>(error));
    } else {
        let rest = values.drop_first();
        law_collecting(rest, error, after);
        let rest_oks = Seq::new(rest.len(), |i: int| Ok::<I, E>(rest[i]));
        assert(oks.drop_first() =~= rest_oks);
        assert(all.drop_first() =~= rest_oks + seq![Err::<I, E>(error)] + after);
        assert(all[0] == Ok::<I, E>(values[0]));
        assert(seq![values[0]] + rest =~= values);
    }
}

/// A stream that is collected until it has ended is complete: collecting succeeds exactly if the first
/// message that carries no value is the marker, and then it gives all values before it. If receiving
/// fails, the receiver closes or the remote sends an error before that, collecting fails, and with that
/// error.
pub proof fn law_complete_streams_are_collected<T: StreamItem>(
    before: Seq<Result<Option<T>, RecvError>>,
    values: Seq<T::Item>,
    end: Result<Option<T>, RecvError>,
    after: Seq<Result<Option<T>, RecvError>>,
)
    requires
        are_values(before, values),
        !(end matches Ok(Some(item)) && item.result_opt() matches Some(Ok(_))),
    ensures
        match end {
            Err(e) => collected(yielded(before + seq![end] + after)) == Err::<Seq<T::Item>, _>(
                StreamError::<T::Error>::Transport(Error::MpscRecv { source: e }),
            ),
            Ok(None) => collected(yielded(before + seq![end] + after)) matches Err(
                StreamError::Transport(Error::MpscRecv { source: RecvError::Io { source } }),
            ) && source.kind == ErrorKind::UnexpectedEof,
            Ok(Some(item)) => match item.result_opt() {
                Some(Err(e)) => collected(yielded(before + seq![end] + after)) == Err::<
                    Seq<T::Item>,
                    _,
                >(StreamError::Remote(e)),
                _ => collected(yielded(before + seq![end] + after)) == Ok::<
                    _,
                    StreamError<T::Error>,
                >(values),
            },
        },
{
    law_stream_yields(before, values, end, after);
    let items = yielded(before + seq![end] + after);
    let oks = Seq::new(values.len(), |i: int| Ok::<T::Item, StreamError<T::Error>>(values[i]));
    let none = Seq::<Result<T::Item, StreamError<T::Error>>>::empty();
    match end {
        Err(e) => {
            let error = StreamError::<T::Error>::Transport(Error::MpscRecv { source: e });
            law_collecting::<T::Item, StreamError<T::Error>>(values, error, none);
            assert(items =~= oks + seq![Err::<T::Item, StreamError<T::Error>>(error)] + none);
        },
        Ok(None) => {
            let e = choose|e: IoError|
                {
                    &&& e.kind == ErrorKind::UnexpectedEof
                    &&& items == oks.push(#[trigger] transport_error::<T::Item, T::Error>(e))
                };
            let error = transport_error::<T::Item, T::Error>(e)->Err_0;
            law_collecting::<T::Item, StreamError<T::Error>>(values, error, none);
            assert(items =~= oks + seq![Err::<T::Item, StreamError<T::Error>>(error)] + none);
        },
        Ok(Some(item)) => {
            if let Some(Err(e)) = item.result_opt() {
                let error = StreamError::Remote(e);
                law_collecting::<T::Item, StreamError<T::Error>>(values, error, none);
                assert(items =~= oks + seq![Err::<T::Item, StreamError<T::Error>>(error)] + none);
            } else {
                law_collecting::<T::Item, StreamError<T::Error>>(values, arbitrary(), none);
            }
        },
    }
}

/// What is forwarded is one item for each result up to the first error, in order, and then the marker
/// if there was no error.
pub proof fn law_forwarding<T: StreamItem>(
    values: Seq<T::Item>,
    error: T::Error,
    after: Seq<Result<T::Item, T::Error>>,
)
    ensures
        ({
            let oks = Seq::new(values.len(), |i: int| Ok::<T::Item, T::Error>(values[i]));
            let sent = Seq::new(values.len(), |i: int| T::of_result(Ok(values[i])));
            &&& forwarded::<T>(oks) == sent.push(T::marker())
            &&& forwarded::<T>(oks + seq![Err::<T::Item, T::Error>(error)] + after) == sent.push(
                T::of_result(Err(error)),
            )
        }),
    decreases values.len(),
{
    let oks = Seq::new(values.len(), |i: int| Ok::<T::Item, T::Error>(values[i]));
    let sent = Seq::new(values.len(), |i: int| T::of_result(Ok(values[i])));
    let failing = oks + seq![Err::<T::Item, T::Error>(error)] + after;
    if values.len() == 0 {
        assert(oks =~= Seq::empty());
        assert(failing[0] == Err::<T::Item, T::Error>(error));
        assert(forwarded::<T>(oks) =~= sent.push(T::marker()));
        assert(forwarded::<T>(failing) =~= sent.push(T::of_result(Err(error))));
    } else {
        let rest = values.drop_first();
        law_forwarding::<T>(rest, error, after);
        let rest_oks = Seq::new(rest.len(), |i: int| Ok::<T::Item, T::Error>(rest[i]));
        let rest_sent = Seq::new(rest.len(), |i: int| T::of_result(Ok(rest[i])));
        assert(oks.drop_first() =~= rest_oks);
        assert(failing.drop_first() =~= rest_oks + seq![Err::<T::Item, T::Error>(error)] + after);
        assert(failing[0] == oks[0]);
        let first = T::of_result(Ok(values[0]));
        assert(forwarded::<T>(oks) == seq![first] + forwarded::<T>(rest_oks));
        assert(forwarded::<T>(oks) =~= sent.push(T::marker()));
        assert(forwarded::<T>(failing) =~= sent.push(T::of_result(Err(error))));
    }
}

/// The items of a stream stand for results one to one: a value for a success, a failure for an error,
/// and the end for no result at all.
pub proof fn law_items_stand_for_results<T, E>(item: Item<T, E>, result: Result<T, E>)
    ensures
        match item {
            Item::Value(v) => item.result_opt() == Some(Ok::<T, E>(v)),
            Item::Failure(e) => item.result_opt() == Some(Err::<T, E>(e)),
            Item::Done => item.result_opt() is None,
        },
        match result {
            Ok(v) => Item::<T, E>::of_result(result) == Item::<T, E>::Value(v),
            Err(e) => Item::<T, E>::of_result(result) == Item::<T, E>::Failure(e),
        },
        Item::<T, E>::marker() == Item::<T, E>::Done,
{
}

/// Forwarding goes on exactly while items that are no errors are sent without an error. The marker is
/// sent exactly when there is nothing more to send, and a failure to send is the result.
pub proof fn law_forwarding_goes_on<T: StreamItem>(
    next: Option<Result<T::Item, T::Error>>,
    item: (T, bool),
    res: Result<(), SendError>,
    r: Option<Result<(), SendError>>,
)
    requires
        call_ensures(forward_next::<T>, (next,), item),
        call_ensures(forward_sent, (res, item.1), r),
    ensures
        r is None <==> (next matches Some(result) && result is Ok) && res is Ok,
        next is None ==> item.0 == T::marker(),
        next matches Some(result) ==> item.0 == T::of_result(result),
        res matches Err(e) ==> r == Some(Err::<(), _>(e)),
        res is Ok && r is Some ==> r == Some(Ok::<(), SendError>(())),
{
}

} // verus!
