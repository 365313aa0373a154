//! A bridge replayed on one thread.
//!
//! [`Replay`] carries out the turns of feeder tasks and of the cell's thread in the
//! order in which it is told to, with a queue and a cell of its own, so that one
//! interleaving can be looked at without threads and without a reactive runtime.

use std::collections::VecDeque;
use vstd::prelude::*;

use crate::channel::SendOutcome;
use crate::feeder::{action_after, after_send, state_after, FeederAction, FeederState};
use crate::laws::{lemma_finish_pass, lemma_init_wf, lemma_run_wf, lemma_settle, lemma_step_wf};
use crate::protocol::{
    feed, finish_pass, init, latest, run, send_outcome, settle, step, wf, BridgeState, Event,
};

verus! {

/// One bridge, with everything that ever went through it. Its view is the state of
/// the protocol; each method carries out events of the protocol on it.
pub struct Replay<V> {
    initial: V,
    cell: V,
    accepted: Vec<V>,
    queued: VecDeque<V>,
    applied: Vec<V>,
    wake_pending: bool,
    draining: bool,
    open: bool,
    owed: Ghost<nat>,
    passes: Ghost<nat>,
}

impl<V: Copy> View for Replay<V> {
    type V = BridgeState<V>;

    closed spec fn view(&self) -> BridgeState<V> {
        BridgeState {
            initial: self.initial,
            cell: self.cell,
            accepted: self.accepted@,
            queued: self.queued@,
            applied: self.applied@,
            owed: self.owed@,
            wake_pending: self.wake_pending,
            draining: self.draining,
            open: self.open,
            passes: self.passes@,
        }
    }
}

impl<V: Copy> Replay<V> {
    /// A new bridge into a cell that holds `initial`.
    pub fn new(initial: V) -> (replay: Self)
        ensures
            replay@ == init(initial),
            wf(replay@),
    {
        proof {
            lemma_init_wf(initial);
        }
        Replay {
            initial,
            cell: initial,
            accepted: Vec::new(),
            queued: VecDeque::new(),
            applied: Vec::new(),
            wake_pending: false,
            draining: false,
            open: true,
            owed: Ghost(0),
            passes: Ghost(0),
        }
    }

    /// A feeder offers `item` to the channel.
    pub fn send(&mut self, item: V) -> (outcome: SendOutcome<V>)
        ensures
            final(self)@ == step(old(self)@, Event::Send(item)),
            outcome == send_outcome(old(self)@, item),
            wf(old(self)@) ==> wf(final(self)@),
    {
        proof {
            if wf(self@) {
                lemma_step_wf(self@, Event::Send(item));
            }
        }
        if self.open {
            self.accepted.push(item);
            self.queued.push_back(item);
            proof {
                self.owed@ = self.owed@ + 1;
            }
            SendOutcome::Delivered
        } else {
            SendOutcome::Closed(item)
        }
    }

    /// A feeder requests a wake-up.
    pub fn request_wakeup(&mut self)
        ensures
            final(self)@ == step(old(self)@, Event::Wake),
            wf(old(self)@) ==> wf(final(self)@),
    {
        proof {
            if wf(self@) {
                lemma_step_wf(self@, Event::<V>::Wake);
            }
            self.owed@ = if self.owed@ > 0 {
                (self.owed@ - 1) as nat
            } else {
                0
            };
        }
        self.wake_pending = self.wake_pending || self.open;
    }

    /// The cell's thread starts a run of the drain loop, if one is due. Returns
    /// whether a run started.
    pub fn start_pass(&mut self) -> (started: bool)
        ensures
            final(self)@ == step(old(self)@, Event::Start),
            started == (old(self)@.open && old(self)@.wake_pending && !old(self)@.draining),
            wf(old(self)@) ==> wf(final(self)@),
    {
        proof {
            if wf(self@) {
                lemma_step_wf(self@, Event::<V>::Start);
            }
        }
        if self.open && self.wake_pending && !self.draining {
            self.wake_pending = false;
            self.draining = true;
            proof {
                self.passes@ = self.passes@ + 1;
            }
            true
        } else {
            false
        }
    }

    /// The running drain loop takes the oldest queued item and writes it to the
    /// cell, or finds the channel empty and returns. Returns the item written.
    pub fn take(&mut self) -> (written: Option<V>)
        ensures
            final(self)@ == step(old(self)@, Event::Take),
            written == if old(self)@.draining && old(self)@.queued.len() > 0 {
                Some(old(self)@.queued[0])
            } else {
                None
            },
            wf(old(self)@) ==> wf(final(self)@),
    {
        proof {
            if wf(self@) {
                lemma_step_wf(self@, Event::<V>::Take);
            }
        }
        if !self.draining {
            return None;
        }
        match self.queued.pop_front() {
            Some(item) => {
                self.cell = item;
                self.applied.push(item);
                Some(item)
            },
            None => {
                self.draining = false;
                None
            },
        }
    }

    /// The drain loop's scope is disposed: what is queued is dropped with the
    /// receiving end.
    pub fn dispose(&mut self)
        ensures
            final(self)@ == step(old(self)@, Event::Dispose),
            wf(old(self)@) ==> wf(final(self)@),
    {
        proof {
            if wf(self@) {
                lemma_step_wf(self@, Event::<V>::Dispose);
            }
        }
        self.queued.clear();
        self.wake_pending = false;
        self.draining = false;
        self.open = false;
    }

    /// Carries out one turn.
    pub fn apply(&mut self, event: &Event<V>)
        ensures
            final(self)@ == step(old(self)@, *event),
            wf(old(self)@) ==> wf(final(self)@),
    {
        match event {
            Event::Send(item) => {
                let _ = self.send(*item);
            },
            Event::Wake => {
                self.request_wakeup();
            },
            Event::Start => {
                let _ = self.start_pass();
            },
            Event::Take => {
                let _ = self.take();
            },
            Event::Dispose => {
                self.dispose();
            },
        }
    }

    /// Carries out the turns of `events`, first to last.
    pub fn run(&mut self, events: &Vec<Event<V>>)
        ensures
            final(self)@ == run(old(self)@, events@),
            wf(old(self)@) ==> wf(final(self)@),
    {
        proof {
            if wf(self@) {
                lemma_run_wf(self@, events@);
            }
        }
        let ghost start = self@;
        let mut done: usize = 0;
        while done < events.len()
            invariant
                done <= events.len(),
                self@ == run(start, events@.take(done as int)),
            decreases events.len() - done,
        {
            proof {
                let next = events@.take(done + 1);
                assert(next.drop_last() == events@.take(done as int));
                assert(next.last() == events@[done as int]);
            }
            self.apply(&events[done]);
            done = done + 1;
        }
        assert(events@.take(done as int) == events@);
    }

    /// One step of a feeder in state `feeder` that has `item` to offer: the send,
    /// then the request for a wake-up if the channel took the item. Returns the
    /// feeder's next state and what its task has to do.
    pub fn feed(&mut self, feeder: FeederState, item: V) -> (next: (FeederState, FeederAction<V>))
        ensures
            (final(self)@, next.0) == feed(old(self)@, feeder, item),
            feeder is Awaiting ==> next == (
                state_after(feeder, send_outcome(old(self)@, item)),
                action_after(send_outcome(old(self)@, item)),
            ),
            feeder is Stopped ==> next == (FeederState::Stopped, FeederAction::Stop(item)),
            wf(old(self)@) ==> wf(final(self)@),
    {
        match feeder {
            FeederState::Stopped => (FeederState::Stopped, FeederAction::Stop(item)),
            FeederState::Awaiting => {
                let outcome = self.send(item);
                let next = after_send(feeder, outcome);
                match next.1 {
                    FeederAction::RequestWakeup => {
                        self.request_wakeup();
                    },
                    FeederAction::Stop(_) => {},
                }
                next
            },
        }
    }

    /// Lets the run of the drain loop that is under way, if any, return. Returns
    /// how many items it wrote from here on.
    pub fn finish_pass(&mut self) -> (written: usize)
        ensures
            final(self)@ == finish_pass(old(self)@),
            written == final(self)@.applied.len() - old(self)@.applied.len(),
            wf(old(self)@) ==> wf(final(self)@),
    {
        proof {
            lemma_finish_pass(self@);
        }
        let ghost start = self@;
        let mut written: usize = 0;
        while self.draining
            invariant
                finish_pass(self@) == finish_pass(start),
                written == self@.applied.len() - start.applied.len(),
            decreases self@.queued.len(), (if self@.draining { 1nat } else { 0nat }),
        {
            match self.take() {
                Some(_) => {
                    assert(self.applied@.len() == self.applied.len());
                    written = written + 1;
                },
                None => {},
            }
        }
        written
    }

    /// Lets the cell's thread run until it has nothing left to do. Returns how many
    /// items it wrote.
    pub fn settle(&mut self) -> (written: usize)
        ensures
            final(self)@ == settle(old(self)@),
            written == final(self)@.applied.len() - old(self)@.applied.len(),
            wf(old(self)@) ==> wf(final(self)@),
            wf(old(self)@) && old(self)@.open && old(self)@.owed == 0 ==> final(self)@.applied
                == old(self)@.accepted && final(self)@.queued.len() == 0,
    {
        proof {
            if wf(self@) && self@.open && self@.owed == 0 {
                lemma_settle(self@);
            }
        }
        let first = self.finish_pass();
        let _ = self.start_pass();
        let second = self.finish_pass();
        assert(self.applied@.len() == self.applied.len());
        first + second
    }

    /// What the read handle shows.
    pub fn read(&self) -> (value: V)
        ensures
            value == self@.cell,
            wf(self@) ==> value == latest(self@.initial, self@.applied),
    {
        self.cell
    }

    /// The items that were handed to the write handle, oldest first.
    pub fn applied(&self) -> (items: &Vec<V>)
        ensures
            items@ == self@.applied,
    {
        &self.applied
    }

    /// Every item that the channel took, oldest first.
    pub fn accepted(&self) -> (items: &Vec<V>)
        ensures
            items@ == self@.accepted,
    {
        &self.accepted
    }

    /// How many items are queued.
    pub fn queued_len(&self) -> (len: usize)
        ensures
            len == self@.queued.len(),
    {
        self.queued.len()
    }

    /// Whether a wake-up was requested since the drain loop last started.
    pub fn wake_pending(&self) -> (pending: bool)
        ensures
            pending == self@.wake_pending,
    {
        self.wake_pending
    }

    /// Whether the receiving end still exists.
    pub fn is_open(&self) -> (open: bool)
        ensures
            open == self@.open,
    {
        self.open
    }
}

} // verus!
