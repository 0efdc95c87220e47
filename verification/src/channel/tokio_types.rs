//! The channels of tokio, which local channels are made of.
use tokio::sync::mpsc::channel as tokio_channel;
use tokio::sync::mpsc::Receiver as TokioReceiver;
use tokio::sync::mpsc::Sender as TokioSender;
use tokio::sync::oneshot::channel as tokio_oneshot_channel;
use tokio::sync::oneshot::error::RecvError as TokioRecvError;
use tokio::sync::oneshot::Receiver as TokioOneshotReceiver;
use tokio::sync::oneshot::Sender as TokioOneshotSender;
use vstd::prelude::*;

verus! {

/// The sending half of a tokio mpsc channel.
#[verifier::external_type_specification]
#[verifier::external_body]
#[verifier::reject_recursive_types(T)]
pub struct ExTokioSender<T>(TokioSender<T>);

/// The receiving half of a tokio mpsc channel.
#[verifier::external_type_specification]
#[verifier::external_body]
#[verifier::reject_recursive_types(T)]
pub struct ExTokioReceiver<T>(TokioReceiver<T>);

/// The sending half of a tokio oneshot channel.
#[verifier::external_type_specification]
#[verifier::external_body]
#[verifier::reject_recursive_types(T)]
pub struct ExTokioOneshotSender<T>(TokioOneshotSender<T>);

/// The error of a tokio oneshot channel without a sender.
#[verifier::external_type_specification]
#[verifier::external_body]
pub struct ExTokioRecvError(TokioRecvError);

/// The receiving half of a tokio oneshot channel.
#[verifier::external_type_specification]
#[verifier::external_body]
#[verifier::reject_recursive_types(T)]
pub struct ExTokioOneshotReceiver<T>(TokioOneshotReceiver<T>);

/// `tokio::sync::mpsc::Sender::clone`: a clone is the same sender, in that it sends into the same
/// channel.
pub assume_specification<T>[ <TokioSender<T> as Clone>::clone ](tx: &TokioSender<T>) -> (r:
    TokioSender<T>)
    ensures
        r == *tx,
;

/// `tokio::sync::mpsc::channel`: a new channel, for that many messages at a time. Nothing is
/// claimed of the halves.
///
/// It panics if the capacity is zero, or above what the semaphore in it can count.
pub assume_specification<T>[ tokio_channel::<T> ](buffer: usize) -> (r: (
    TokioSender<T>,
    TokioReceiver<T>,
))
    requires
        0 < buffer <= usize::MAX >> 3,
;

/// `tokio::sync::oneshot::channel`: a new channel. Nothing is claimed of the halves.
pub assume_specification<T>[ tokio_oneshot_channel::<T> ]() -> (r: (
    TokioOneshotSender<T>,
    TokioOneshotReceiver<T>,
));

/// How an attempt to send into a tokio channel came out.
#[derive(Debug, Clone, Copy, PartialEq, Eq, Structural)]
pub enum TrySent {
    Sent,
    Full,
    Closed,
}

/// `tokio::sync::mpsc::Sender::try_send`: sends the message if there is room for it. How it comes
/// out depends on what the other users of the channel do, so nothing is claimed of it.
#[verifier::external_body]
pub(crate) fn mpsc_try_send<T>(tx: &TokioSender<T>, value: T) -> (r: TrySent) {
    match tx.try_send(value) {
        Ok(()) => TrySent::Sent,
        Err(tokio::sync::mpsc::error::TrySendError::Full(_)) => TrySent::Full,
        Err(tokio::sync::mpsc::error::TrySendError::Closed(_)) => TrySent::Closed,
    }
}

/// `tokio::sync::oneshot::Sender::send`: sends the message, unless the receiver is gone. Then the
/// message comes back. Whether it does depends on the receiver, so nothing is claimed of that.
pub assume_specification<T>[ TokioOneshotSender::<T>::send ](tx: TokioOneshotSender<T>, t: T) -> (r:
    Result<(), T>)
    ensures
        r matches Err(back) ==> back == t,
;

} // verus!
