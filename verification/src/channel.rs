//! The hand-off queue between feeder tasks and the drain loop: an unbounded
//! multi-producer channel of `crossbeam_channel`.
//!
//! The two ends of a channel are used from different threads at once, so what the
//! channel holds at any moment is not a function of the end in hand. The functions
//! here therefore say of a call only what holds whatever the other threads did.

use crossbeam_channel::{Receiver, Sender, TrySendError};
use vstd::prelude::*;

verus! {

/// `crossbeam_channel::Sender`, as an opaque value.
#[verifier::external_type_specification]
#[verifier::external_body]
#[verifier::reject_recursive_types(T)]
pub struct ExSender<T>(Sender<T>);

/// `crossbeam_channel::Receiver`, as an opaque value.
#[verifier::external_type_specification]
#[verifier::external_body]
#[verifier::reject_recursive_types(T)]
pub struct ExReceiver<T>(Receiver<T>);

/// What became of an item that was offered to a channel.
#[derive(Debug, PartialEq, Eq)]
pub enum SendOutcome<V> {
    /// The channel took the item.
    Delivered,
    /// The channel is bounded and at capacity; the item comes back.
    Full(V),
    /// No receiver is left; the item comes back.
    Closed(V),
}

/// `crossbeam_channel::unbounded`: the two ends of a new channel without a capacity
/// bound. Nothing is claimed of the ends.
#[verifier::external_body]
pub(crate) fn unbounded_pair<V>() -> (ends: (Sender<V>, Receiver<V>)) {
    crossbeam_channel::unbounded()
}

/// `Sender::try_send`: offers `item` to the channel and returns at once, on a channel
/// of any kind. Whether the channel takes the item depends on its other users, so
/// only this is claimed: an item that the channel does not take comes back as it was
/// given.
///
/// On a channel without a capacity bound this is `Sender::send`, which never waits
/// there; unlike `send` it does not wait on a bounded channel either.
#[verifier::external_body]
pub(crate) fn try_send<V>(sender: &Sender<V>, item: V) -> (outcome: SendOutcome<V>)
    ensures
        outcome matches SendOutcome::Full(back) ==> back == item,
        outcome matches SendOutcome::Closed(back) ==> back == item,
{
    match sender.try_send(item) {
        Ok(()) => SendOutcome::Delivered,
        Err(TrySendError::Full(back)) => SendOutcome::Full(back),
        Err(TrySendError::Disconnected(back)) => SendOutcome::Closed(back),
    }
}

/// `Receiver::try_recv`: the oldest queued item, or `None` when the channel has none
/// to give right now, be it empty or empty and without senders. What is queued
/// depends on the senders, so nothing is claimed of the result.
#[verifier::external_body]
pub(crate) fn try_take<V>(receiver: &Receiver<V>) -> (taken: Option<V>) {
    receiver.try_recv().ok()
}

} // verus!
