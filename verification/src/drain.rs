//! The drain loop: what an effect of the reactive runtime does on the cell's thread
//! each time the bridge's trigger is notified.
//!
//! The effect subscribes to the trigger and writes to the cell; both are calls of
//! the reactive runtime that only the effect itself can make. Whether it runs at
//! all, what it subscribes to, what it writes, in which order, and when it returns
//! is decided here: the effect starts a [`Pass`], subscribes to the trigger that
//! comes with the pass, does what each [`DrainStep`] of the pass says, and tells
//! the pass after each write whether the cell took it, until the step is to return
//! or to retire. Where no pass starts, the loop's scope was disposed; where the
//! step is to retire, the cell is gone. In both cases the effect disposes its own
//! scope, which drops the loop with its receiving end, and the feeder stops at its
//! next offer.

use crossbeam_channel::{Receiver, Sender};
use floem_reactive::{RwSignal, Scope, Trigger, WriteSignal};
use vstd::prelude::*;

use crate::channel::try_take;
use crate::reactive::is_registered;

verus! {

/// What the drain loop has to do next.
#[verifier::reject_recursive_types(V)]
pub enum DrainStep<V> {
    /// Write the item to the cell behind the write handle, then ask for the next
    /// step.
    Write(WriteSignal<V>, V),
    /// The channel has nothing more to give: return.
    Return,
    /// The channel has nothing more to give, and the cell refused a write of this
    /// pass, as a cell does that was disposed: drop the loop.
    Retire,
}

/// The step that follows an answer of the channel, for a pass that writes to
/// `writer` and of which the cell has, or has not, `refused` a write so far.
pub open spec fn step_after<V>(writer: WriteSignal<V>, refused: bool, taken: Option<V>) -> DrainStep<
    V,
> {
    match taken {
        Some(item) => DrainStep::Write(writer, item),
        None => if refused {
            DrainStep::Retire
        } else {
            DrainStep::Return
        },
    }
}

/// Decides what follows an answer of the channel: the item that the channel gave is
/// to be written to `writer`, as it came, whatever became of the writes before it;
/// an empty answer ends the pass, and the loop with it if a write was refused.
pub fn after_take<V>(writer: WriteSignal<V>, refused: bool, taken: Option<V>) -> (step: DrainStep<
    V,
>)
    ensures
        step == step_after(writer, refused, taken),
{
    match taken {
        Some(item) => DrainStep::Write(writer, item),
        None => if refused {
            DrainStep::Retire
        } else {
            DrainStep::Return
        },
    }
}

/// The receiving half of a bridge: the channel's receiving end, the write handle
/// that its items go to, the trigger that wakes the loop and the scope that owns it.
#[verifier::reject_recursive_types(V)]
pub struct DrainLoop<V> {
    scope: Scope,
    marker: RwSignal<()>,
    trigger: Trigger,
    receiver: Receiver<V>,
    writer: WriteSignal<V>,
    peer: Ghost<Sender<V>>,
}

impl<V> DrainLoop<V> {
    /// The scope that owns the loop: disposing it is to drop the loop.
    pub closed spec fn owner(&self) -> Scope {
        self.scope
    }

    /// The trigger that wakes the loop.
    pub closed spec fn wakes(&self) -> Trigger {
        self.trigger
    }

    /// The receiving end that the loop takes its items from.
    pub closed spec fn source(&self) -> Receiver<V> {
        self.receiver
    }

    /// The sending end that came with the loop's receiving end when the channel was
    /// made.
    pub closed spec fn fed_by(&self) -> Sender<V> {
        self.peer@
    }

    /// The write handle that the loop's items go to.
    pub closed spec fn destination(&self) -> WriteSignal<V> {
        self.writer
    }

    /// A drain loop over the receiving end of `ends`, the two ends of one channel as
    /// they came. Gives the sending end back. `marker` is a signal that `scope`
    /// owns, as `trigger` is: while the thread's registry holds the one, it holds
    /// the other.
    pub(crate) fn new(
        scope: Scope,
        marker: RwSignal<()>,
        trigger: Trigger,
        ends: (Sender<V>, Receiver<V>),
        writer: WriteSignal<V>,
    ) -> (made: (Sender<V>, Self))
        ensures
            made.0 == ends.0,
            made.1.fed_by() == ends.0,
            made.1.source() == ends.1,
            made.1.owner() == scope,
            made.1.wakes() == trigger,
            made.1.destination() == writer,
    {
        let (sender, receiver) = ends;
        let drain = DrainLoop { scope, marker, trigger, receiver, writer, peer: Ghost(sender) };
        (sender, drain)
    }

    /// The scope in which the loop's effect is to be made.
    pub fn scope(&self) -> (scope: Scope)
        ensures
            scope == self.owner(),
    {
        self.scope
    }

    /// Starts one pass of the loop, unless the loop's scope was disposed: the
    /// effect may still be run once after that, by a wake-up that was on its way, and
    /// the trigger is then gone. Returns the pass, which has taken nothing yet, and
    /// the trigger to subscribe to before the first step of the pass is asked for,
    /// so that a wake-up that arrives from here on causes another pass.
    pub fn start(&self) -> (run: Option<(Pass<'_, V>, Trigger)>)
        ensures
            run matches Some(pass) ==> pass.0.of() == *self && pass.0.taken() == Seq::<V>::empty()
                && !pass.0.ran_dry() && !pass.0.refused() && pass.1 == self.wakes(),
    {
        self.start_if(is_registered(&self.marker))
    }

    /// Starts one pass of the loop if `registered` says that the thread's registry
    /// still holds what the loop's scope owns, and none if not.
    pub fn start_if(&self, registered: bool) -> (run: Option<(Pass<'_, V>, Trigger)>)
        ensures
            run is Some == registered,
            run matches Some(pass) ==> pass.0.of() == *self && pass.0.taken() == Seq::<V>::empty()
                && !pass.0.ran_dry() && !pass.0.refused() && pass.1 == self.wakes(),
    {
        if registered {
            Some(
                (
                    Pass { drain: self, emptied: false, refused: false, taken: Ghost(Seq::empty()) },
                    self.trigger,
                ),
            )
        } else {
            None
        }
    }
}

/// One pass of a drain loop, with the account of what the channel gave it.
#[verifier::reject_recursive_types(V)]
pub struct Pass<'a, V> {
    drain: &'a DrainLoop<V>,
    emptied: bool,
    refused: bool,
    taken: Ghost<Seq<V>>,
}

impl<'a, V> Pass<'a, V> {
    /// The drain loop that the pass belongs to.
    pub closed spec fn of(&self) -> DrainLoop<V> {
        *self.drain
    }

    /// The items that the channel gave to the pass, oldest first. Each was handed on
    /// in a step of the pass, to be written.
    pub closed spec fn taken(&self) -> Seq<V> {
        self.taken@
    }

    /// Whether the channel told the pass that it had nothing more to give.
    pub closed spec fn ran_dry(&self) -> bool {
        self.emptied
    }

    /// Whether the cell refused a write of the pass.
    pub closed spec fn refused(&self) -> bool {
        self.refused
    }

    /// Whether the pass is over.
    pub fn emptied(&self) -> (dry: bool)
        ensures
            dry == self.ran_dry(),
    {
        self.emptied
    }

    /// Enters in the account what became of the write that the last step asked for:
    /// whether the cell `stored` the item. A refused write is not made again.
    pub fn wrote(&mut self, stored: bool)
        ensures
            final(self).refused() == (old(self).refused() || !stored),
            final(self).of() == old(self).of(),
            final(self).taken() == old(self).taken(),
            final(self).ran_dry() == old(self).ran_dry(),
    {
        if !stored {
            self.refused = true;
        }
    }

    /// Asks the channel of the pass's loop for its oldest item and says what to do
    /// next: write that item to the loop's write handle, or end the pass. A pass
    /// that is over does not touch the channel again.
    ///
    /// What the channel gives is the channel's answer; the step hands the item on as
    /// it came, names the loop's own write handle, and the account follows the
    /// step.
    pub fn next(&mut self) -> (step: DrainStep<V>)
        ensures
            final(self).of() == old(self).of(),
            final(self).refused() == old(self).refused(),
            old(self).ran_dry() ==> !(step is Write),
            step matches DrainStep::Write(writer, item) ==> writer == old(self).of().destination()
                && final(self).taken() == old(self).taken().push(item) && !final(self).ran_dry(),
            !(step is Write) ==> final(self).taken() == old(self).taken() && final(self).ran_dry(),
            step is Retire ==> old(self).refused(),
            step is Return ==> !old(self).refused(),
    {
        if self.emptied {
            return after_take(self.drain.writer, self.refused, None);
        }
        let taken = try_take(&self.drain.receiver);
        proof {
            if taken is Some {
                self.taken@ = self.taken@.push(taken->0);
            }
        }
        if taken.is_none() {
            self.emptied = true;
        }
        after_take(self.drain.writer, self.refused, taken)
    }
}

} // verus!
