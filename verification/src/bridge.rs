//! The entry points: make the two halves of a bridge to a cell.
//!
//! Call them on the thread that owns the cell. Each opens a channel and makes the
//! trigger, and returns the feeder for the task that has the source and the drain
//! loop for the effect that the caller makes in the loop's scope. The loop belongs
//! to the scope that is current at the call, unless one is given: disposing that
//! scope drops the loop with its receiving end, and the feeder stops at its next
//! offer.

use crossbeam_channel::Sender;
use floem_reactive::{ReadSignal, RwSignal, Scope, Trigger, WriteSignal};
use vstd::prelude::*;

use crate::channel::unbounded_pair;
use crate::drain::DrainLoop;
use crate::feeder::Feeder;
use crate::reactive::{current_scope, marker_in, new_cell, read_half, trigger_in, write_half};

verus! {

/// A new channel wired to a write handle: the sending end, the trigger that wakes
/// the drain loop, and the drain loop itself.
#[verifier::reject_recursive_types(V)]
pub struct Wiring<V> {
    /// The sending end of the channel.
    pub sender: Sender<V>,
    /// The trigger that wakes the drain loop.
    pub trigger: Trigger,
    /// The drain loop over the channel's receiving end.
    pub drain: DrainLoop<V>,
}

/// The two halves of a bridge.
#[verifier::reject_recursive_types(V)]
pub struct Bridge<V> {
    /// The sending half, for the task that has the source.
    pub feeder: Feeder<V>,
    /// The receiving half, for an effect on the cell's thread.
    pub drain: DrainLoop<V>,
}

/// Opens a channel and makes a trigger that `scope` owns. The drain loop over the
/// channel's receiving end belongs to `scope`, is woken by that trigger and writes
/// to `writer`.
fn install<V: 'static>(scope: Scope, writer: WriteSignal<V>) -> (wiring: Wiring<V>)
    ensures
        wiring.drain.owner() == scope,
        wiring.drain.destination() == writer,
        wiring.drain.wakes() == wiring.trigger,
        wiring.drain.fed_by() == wiring.sender,
{
    let ends = unbounded_pair();
    let marker = marker_in(scope);
    let trigger = trigger_in(scope);
    let (sender, drain) = DrainLoop::new(scope, marker, trigger, ends, writer);
    Wiring { sender, trigger, drain }
}

/// Opens a channel and makes the trigger and the drain loop that empties the channel
/// into `writer`, owned by the scope that is current. The sending end returned is
/// the one that came with the loop's receiving end, and the trigger returned is the
/// one that wakes the loop.
pub fn writer_to_triggered_sender<V: 'static>(writer: WriteSignal<V>) -> (wiring: Wiring<V>)
    ensures
        wiring.drain.destination() == writer,
        wiring.drain.wakes() == wiring.trigger,
        wiring.drain.fed_by() == wiring.sender,
{
    install(current_scope(), writer)
}

/// Makes of a wiring the two halves of a bridge, with a feeder that has offered
/// nothing yet.
fn halves<V>(wiring: Wiring<V>) -> (bridge: Bridge<V>)
    ensures
        bridge.drain == wiring.drain,
        bridge.feeder.sender() == wiring.sender,
        bridge.feeder.wakes() == wiring.trigger,
        bridge.feeder.state() is Awaiting,
        bridge.feeder.delivered() == Seq::<V>::empty(),
{
    let Wiring { sender, trigger, drain } = wiring;
    Bridge { feeder: Feeder::new(sender, trigger), drain }
}

/// A new bridge to the cell behind `writer`, owned by the scope that is current.
pub fn write_into<V: 'static>(writer: WriteSignal<V>) -> (bridge: Bridge<V>)
    ensures
        bridge.drain.destination() == writer,
        bridge.drain.wakes() == bridge.feeder.wakes(),
        bridge.drain.fed_by() == bridge.feeder.sender(),
        bridge.feeder.state() is Awaiting,
        bridge.feeder.delivered() == Seq::<V>::empty(),
{
    halves(writer_to_triggered_sender(writer))
}

/// A new bridge to the cell behind `writer`, owned by `scope`.
pub fn write_into_scope<V: 'static>(scope: Scope, writer: WriteSignal<V>) -> (bridge: Bridge<V>)
    ensures
        bridge.drain.owner() == scope,
        bridge.drain.destination() == writer,
        bridge.drain.wakes() == bridge.feeder.wakes(),
        bridge.drain.fed_by() == bridge.feeder.sender(),
        bridge.feeder.state() is Awaiting,
        bridge.feeder.delivered() == Seq::<V>::empty(),
{
    halves(install(scope, writer))
}

/// A new bridge to `cell`, owned by the scope that is current, with the cell's read
/// half.
pub fn bridge_into<V: 'static>(cell: RwSignal<V>) -> (bridge: (Bridge<V>, ReadSignal<V>))
    ensures
        bridge.0.drain.wakes() == bridge.0.feeder.wakes(),
        bridge.0.drain.fed_by() == bridge.0.feeder.sender(),
        bridge.0.feeder.state() is Awaiting,
        bridge.0.feeder.delivered() == Seq::<V>::empty(),
{
    let halves = write_into(write_half(&cell));
    (halves, read_half(&cell))
}

/// A new cell that holds `initial` and a new bridge to it, both owned by the scope
/// that is current, with the cell's read half.
pub fn bridge_with_initial<V: 'static>(initial: V) -> (bridge: (Bridge<V>, ReadSignal<V>))
    ensures
        bridge.0.drain.wakes() == bridge.0.feeder.wakes(),
        bridge.0.drain.fed_by() == bridge.0.feeder.sender(),
        bridge.0.feeder.state() is Awaiting,
        bridge.0.feeder.delivered() == Seq::<V>::empty(),
{
    bridge_into(new_cell(initial))
}

} // verus!
