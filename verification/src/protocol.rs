//! The protocol of one bridge as a transition system.
//!
//! Feeder tasks on any thread and the cell's own thread take turns in some order; a
//! turn is an [`Event`], and [`step`] says what it does to the bridge. A turn that
//! cannot take place where it stands leaves the bridge as it is, so every order of
//! events is one that can happen.
//!
//! The model takes three things for granted of the parts that the bridge is built
//! from. The channel is an unbounded first-in-first-out queue in which every
//! accepted send has a place, whichever thread it came from. The trigger is a flag:
//! any number of requests set it once, and a run of the drain loop clears it as it
//! starts. The cell takes every write.

use vstd::prelude::*;

use crate::channel::SendOutcome;
use crate::feeder::{state_after, FeederState};

verus! {

/// The state of one bridge between two turns.
#[verifier::ext_equal]
pub struct BridgeState<V> {
    /// What the cell held before the first write.
    pub initial: V,
    /// What the read handle shows.
    pub cell: V,
    /// Every item that the channel took, oldest first.
    pub accepted: Seq<V>,
    /// The items in the channel that the drain loop has yet to take, oldest first.
    pub queued: Seq<V>,
    /// The items that were handed to the write handle, oldest first.
    pub applied: Seq<V>,
    /// How many sends the channel took whose feeder has yet to request its wake-up.
    pub owed: nat,
    /// Whether a wake-up was requested since the drain loop last started.
    pub wake_pending: bool,
    /// Whether the drain loop is in the middle of a run.
    pub draining: bool,
    /// Whether the drain loop's scope, and with it the receiving end, still exists.
    pub open: bool,
    /// How many runs of the drain loop have started.
    pub passes: nat,
}

/// One turn of a feeder task or of the cell's thread.
#[derive(Debug, PartialEq, Eq)]
pub enum Event<V> {
    /// A feeder offers an item to the channel.
    Send(V),
    /// A feeder requests a wake-up. On a disposed bridge the request does nothing.
    Wake,
    /// The cell's thread starts a run of the drain loop, if the bridge is open, a
    /// wake-up is pending and no run is under way: the thread does one thing at a
    /// time.
    Start,
    /// The running drain loop takes the oldest queued item and writes it, or finds
    /// the channel empty and returns.
    Take,
    /// The drain loop's scope is disposed: the receiving end goes, with all that is
    /// queued, and so does the subscription to the trigger.
    Dispose,
}

/// What the read handle shows after `applied` was written over `initial`.
pub open spec fn latest<V>(initial: V, applied: Seq<V>) -> V {
    if applied.len() == 0 {
        initial
    } else {
        applied.last()
    }
}

/// A new bridge into a cell that holds `initial`.
pub open spec fn init<V>(initial: V) -> BridgeState<V> {
    BridgeState {
        initial,
        cell: initial,
        accepted: Seq::empty(),
        queued: Seq::empty(),
        applied: Seq::empty(),
        owed: 0,
        wake_pending: false,
        draining: false,
        open: true,
        passes: 0,
    }
}

/// The channel's answer to a feeder that offers `item` in state `s`.
pub open spec fn send_outcome<V>(s: BridgeState<V>, item: V) -> SendOutcome<V> {
    if s.open {
        SendOutcome::Delivered
    } else {
        SendOutcome::Closed(item)
    }
}

/// The channel's answer to a drain loop that asks for an item in state `s`: the
/// oldest queued item, if there is one.
pub open spec fn channel_answer<V>(s: BridgeState<V>) -> Option<V> {
    if s.queued.len() > 0 {
        Some(s.queued[0])
    } else {
        None
    }
}

/// The state after one turn.
pub open spec fn step<V>(s: BridgeState<V>, event: Event<V>) -> BridgeState<V> {
    match event {
        Event::Send(item) => {
            if s.open {
                BridgeState {
                    accepted: s.accepted.push(item),
                    queued: s.queued.push(item),
                    owed: s.owed + 1,
                    ..s
                }
            } else {
                s
            }
        },
        Event::Wake => {
            BridgeState {
                owed: if s.owed > 0 {
                    (s.owed - 1) as nat
                } else {
                    0
                },
                wake_pending: s.wake_pending || s.open,
                ..s
            }
        },
        Event::Start => {
            if s.open && s.wake_pending && !s.draining {
                BridgeState { wake_pending: false, draining: true, passes: s.passes + 1, ..s }
            } else {
                s
            }
        },
        Event::Take => {
            if !s.draining {
                s
            } else if s.queued.len() > 0 {
                BridgeState {
                    cell: s.queued[0],
                    queued: s.queued.subrange(1, s.queued.len() as int),
                    applied: s.applied.push(s.queued[0]),
                    ..s
                }
            } else {
                BridgeState { draining: false, ..s }
            }
        },
        Event::Dispose => {
            BridgeState {
                queued: Seq::empty(),
                wake_pending: false,
                draining: false,
                open: false,
                ..s
            }
        },
    }
}

/// The state after the turns of `events`, first to last.
pub open spec fn run<V>(s: BridgeState<V>, events: Seq<Event<V>>) -> BridgeState<V>
    decreases events.len(),
{
    if events.len() == 0 {
        s
    } else {
        step(run(s, events.drop_last()), events.last())
    }
}

/// The items that feeders offered in `events`, first to last.
pub open spec fn offered<V>(events: Seq<Event<V>>) -> Seq<V>
    decreases events.len(),
{
    if events.len() == 0 {
        Seq::empty()
    } else {
        match events.last() {
            Event::Send(item) => offered(events.drop_last()).push(item),
            _ => offered(events.drop_last()),
        }
    }
}

/// What holds of every state that a new bridge can reach.
pub open spec fn wf<V>(s: BridgeState<V>) -> bool {
    &&& s.applied.is_prefix_of(s.accepted)
    &&& s.open ==> s.accepted =~= s.applied + s.queued
    &&& !s.open ==> s.queued.len() == 0 && !s.wake_pending && !s.draining
    &&& s.queued.len() > 0 ==> s.wake_pending || s.draining || s.owed > 0
    &&& s.cell == latest(s.initial, s.applied)
}

/// The state once the run of the drain loop that is under way, if any, has returned.
pub open spec fn finish_pass<V>(s: BridgeState<V>) -> BridgeState<V>
    decreases s.queued.len(), (if s.draining { 1nat } else { 0nat }),
{
    if s.draining {
        finish_pass(step(s, Event::Take))
    } else {
        s
    }
}

/// The state once the cell's thread has nothing left to do: the run under way has
/// returned, and so has the run that was due after it.
pub open spec fn settle<V>(s: BridgeState<V>) -> BridgeState<V> {
    finish_pass(step(finish_pass(s), Event::Start))
}

/// The state after `k` requests for a wake-up in a row.
pub open spec fn wake_n<V>(s: BridgeState<V>, k: nat) -> BridgeState<V>
    decreases k,
{
    if k == 0 {
        s
    } else {
        step(wake_n(s, (k - 1) as nat), Event::Wake)
    }
}

/// One step of a feeder in state `feeder` that has `item` to offer: the send, then
/// the request for a wake-up if the channel took the item.
pub open spec fn feed<V>(s: BridgeState<V>, feeder: FeederState, item: V) -> (
    BridgeState<V>,
    FeederState,
) {
    if feeder is Stopped {
        (s, FeederState::Stopped)
    } else if s.open {
        (
            step(step(s, Event::Send(item)), Event::Wake),
            state_after(feeder, send_outcome(s, item)),
        )
    } else {
        (step(s, Event::Send(item)), state_after(feeder, send_outcome(s, item)))
    }
}

} // verus!
