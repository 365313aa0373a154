//! The feeder: the half of a bridge that a task on any thread drives, one item of
//! its source at a time.
//!
//! The task waits for its source, offers each item to the feeder and does what the
//! feeder answers: it requests a wake-up of the drain loop, or it stops. Waiting
//! and waking are the task's own business; what to do after each offer is decided
//! here.

use crossbeam_channel::Sender;
use floem_reactive::Trigger;
use vstd::prelude::*;

use crate::channel::{try_send, SendOutcome};

verus! {

/// Where a feeder stands between two items of its source.
#[derive(Clone, Copy, Debug, PartialEq, Eq, Structural)]
pub enum FeederState {
    /// Waiting for the source to yield its next item.
    Awaiting,
    /// The channel refused an item: the feeder takes no further one.
    Stopped,
}

/// What the task that drives a feeder has to do after it offered an item.
#[derive(Debug, PartialEq, Eq)]
pub enum FeederAction<V> {
    /// The item is queued: ask the cell's thread to run the drain loop, then wait
    /// for the next item.
    RequestWakeup,
    /// The item was not queued and comes back: stop consuming the source.
    Stop(V),
}

/// The action that follows an outcome of the channel.
pub open spec fn action_after<V>(outcome: SendOutcome<V>) -> FeederAction<V> {
    match outcome {
        SendOutcome::Delivered => FeederAction::RequestWakeup,
        SendOutcome::Full(item) => FeederAction::Stop(item),
        SendOutcome::Closed(item) => FeederAction::Stop(item),
    }
}

/// The state that follows `state` once the channel answered with `outcome`.
pub open spec fn state_after<V>(state: FeederState, outcome: SendOutcome<V>) -> FeederState {
    if state is Awaiting && outcome is Delivered {
        FeederState::Awaiting
    } else {
        FeederState::Stopped
    }
}

/// Decides what follows an answer of the channel: the feeder's next state and what
/// its task has to do.
pub fn after_send<V>(state: FeederState, outcome: SendOutcome<V>) -> (next: (
    FeederState,
    FeederAction<V>,
))
    ensures
        next.0 == state_after(state, outcome),
        next.1 == action_after(outcome),
{
    match outcome {
        SendOutcome::Delivered => {
            match state {
                FeederState::Awaiting => (FeederState::Awaiting, FeederAction::RequestWakeup),
                FeederState::Stopped => (FeederState::Stopped, FeederAction::RequestWakeup),
            }
        },
        SendOutcome::Full(item) => (FeederState::Stopped, FeederAction::Stop(item)),
        SendOutcome::Closed(item) => (FeederState::Stopped, FeederAction::Stop(item)),
    }
}

/// The sending half of a bridge, with the trigger that wakes its drain loop.
#[verifier::reject_recursive_types(V)]
pub struct Feeder<V> {
    sender: Sender<V>,
    trigger: Trigger,
    state: FeederState,
    delivered: Ghost<Seq<V>>,
}

impl<V> Feeder<V> {
    /// Where the feeder stands.
    pub closed spec fn state(&self) -> FeederState {
        self.state
    }

    /// The items that the channel took from this feeder, oldest first.
    pub closed spec fn delivered(&self) -> Seq<V> {
        self.delivered@
    }

    /// The trigger that wakes the drain loop of this feeder's bridge.
    pub closed spec fn wakes(&self) -> Trigger {
        self.trigger
    }

    /// The sending end that the feeder offers its items to.
    pub closed spec fn sender(&self) -> Sender<V> {
        self.sender
    }

    /// A feeder over `sender` that has offered nothing yet.
    pub fn new(sender: Sender<V>, trigger: Trigger) -> (feeder: Self)
        ensures
            feeder.state() is Awaiting,
            feeder.delivered() == Seq::<V>::empty(),
            feeder.wakes() == trigger,
            feeder.sender() == sender,
    {
        Feeder { sender, trigger, state: FeederState::Awaiting, delivered: Ghost(Seq::empty()) }
    }

    /// Offers `item` to the channel, unless the feeder has stopped, and says what to
    /// do next. A stopped feeder does not touch the channel again: the item comes
    /// straight back.
    ///
    /// Whether the channel takes the item is the channel's answer; either way the
    /// action names it, and the feeder's state and history follow the action.
    pub fn offer(&mut self, item: V) -> (action: FeederAction<V>)
        ensures
            old(self).state() is Stopped ==> action == FeederAction::Stop(item),
            action == FeederAction::<V>::RequestWakeup || action == FeederAction::Stop(item),
            action is RequestWakeup ==> final(self).state() is Awaiting && final(self).delivered()
                == old(self).delivered().push(item),
            action is Stop ==> final(self).state() is Stopped && final(self).delivered() == old(
                self,
            ).delivered(),
            final(self).wakes() == old(self).wakes(),
            final(self).sender() == old(self).sender(),
    {
        match self.state {
            FeederState::Stopped => FeederAction::Stop(item),
            FeederState::Awaiting => {
                let outcome = try_send(&self.sender, item);
                proof {
                    if outcome is Delivered {
                        self.delivered@ = self.delivered@.push(item);
                    }
                }
                let (next, action) = after_send(self.state, outcome);
                self.state = next;
                action
            },
        }
    }

    /// Whether the feeder has stopped.
    pub fn is_stopped(&self) -> (stopped: bool)
        ensures
            stopped == (self.state() is Stopped),
    {
        match self.state {
            FeederState::Stopped => true,
            FeederState::Awaiting => false,
        }
    }

    /// The trigger to hand to the wake-up request.
    pub fn trigger(&self) -> (trigger: Trigger)
        ensures
            trigger == self.wakes(),
    {
        self.trigger
    }
}

} // verus!
