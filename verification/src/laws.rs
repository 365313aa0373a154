//! What holds of every bridge, whatever the order in which feeder tasks and the
//! cell's thread take their turns.
//!
//! The lemmas come first: the invariant [`wf`] and what single parts of the protocol
//! do. The laws after them are stated of a new bridge and any events, or of any
//! well-formed bridge.

use floem_reactive::WriteSignal;
use vstd::prelude::*;

use crate::channel::SendOutcome;
use crate::drain::{step_after, DrainStep};
use crate::feeder::{action_after, state_after, FeederAction, FeederState};
use crate::protocol::{
    channel_answer, feed, finish_pass, init, latest, offered, run, send_outcome, settle, step,
    wake_n, wf, BridgeState, Event,
};

verus! {

/// A new bridge is well formed.
pub proof fn lemma_init_wf<V>(initial: V)
    ensures
        wf(init(initial)),
{
}

/// A turn keeps a bridge well formed.
pub proof fn lemma_step_wf<V>(s: BridgeState<V>, event: Event<V>)
    requires
        wf(s),
    ensures
        wf(step(s, event)),
{
    let t = step(s, event);
    match event {
        Event::Send(item) => {
            if s.open {
                assert(t.accepted =~= t.applied + t.queued);
                assert(t.applied =~= t.accepted.subrange(0, t.applied.len() as int));
            }
        },
        Event::Wake => {},
        Event::Start => {},
        Event::Take => {
            if s.draining && s.queued.len() > 0 {
                assert(t.accepted =~= t.applied + t.queued);
                assert(t.applied =~= t.accepted.subrange(0, t.applied.len() as int));
            }
        },
        Event::Dispose => {},
    }
}

/// Any number of turns keeps a bridge well formed.
pub proof fn lemma_run_wf<V>(s: BridgeState<V>, events: Seq<Event<V>>)
    requires
        wf(s),
    ensures
        wf(run(s, events)),
    decreases events.len(),
{
    if events.len() > 0 {
        lemma_run_wf(s, events.drop_last());
        lemma_step_wf(run(s, events.drop_last()), events.last());
    }
}

/// The channel of a new bridge takes what is offered, in the order of the offers,
/// until the bridge is disposed, and nothing after that.
pub proof fn lemma_accepted_of_offered<V>(initial: V, events: Seq<Event<V>>)
    ensures
        run(init(initial), events).accepted.is_prefix_of(offered(events)),
        run(init(initial), events).open ==> run(init(initial), events).accepted == offered(
            events,
        ),
        run(init(initial), events).initial == initial,
    decreases events.len(),
{
    if events.len() > 0 {
        lemma_accepted_of_offered(initial, events.drop_last());
        let before = run(init(initial), events.drop_last());
        let after = run(init(initial), events);
        assert(after == step(before, events.last()));
        assert(after.accepted =~= offered(events).subrange(0, after.accepted.len() as int));
    }
}

/// A run of the drain loop that is under way writes what is queued, oldest first,
/// and returns with the channel empty; it touches nothing else.
pub proof fn lemma_finish_pass<V>(s: BridgeState<V>)
    ensures
        !finish_pass(s).draining,
        s.draining ==> finish_pass(s).applied == s.applied + s.queued,
        s.draining ==> finish_pass(s).queued.len() == 0,
        !s.draining ==> finish_pass(s) == s,
        finish_pass(s).accepted == s.accepted,
        finish_pass(s).passes == s.passes,
        finish_pass(s).open == s.open,
        finish_pass(s).owed == s.owed,
        finish_pass(s).wake_pending == s.wake_pending,
        wf(s) ==> wf(finish_pass(s)),
    decreases s.queued.len(), (if s.draining { 1nat } else { 0nat }),
{
    if s.draining {
        let t = step(s, Event::Take);
        lemma_finish_pass(t);
        if wf(s) {
            lemma_step_wf(s, Event::Take);
        }
        assert(finish_pass(s).applied =~= s.applied + s.queued);
    }
}

/// Once the cell's thread has settled, an open bridge has written everything that
/// its channel took, provided that no feeder still owes a wake-up.
pub proof fn lemma_settle<V>(s: BridgeState<V>)
    requires
        wf(s),
        s.open,
        s.owed == 0,
    ensures
        settle(s).applied == s.accepted,
        settle(s).queued.len() == 0,
        !settle(s).draining,
        !settle(s).wake_pending,
        settle(s).open,
        wf(settle(s)),
{
    let a = finish_pass(s);
    lemma_finish_pass(s);
    let b = step(a, Event::Start);
    lemma_step_wf(a, Event::Start);
    lemma_finish_pass(b);
}

/// Requests for a wake-up set the flag of an open bridge, however many there are,
/// and leave the channel and the cell alone.
pub proof fn lemma_wake_n<V>(s: BridgeState<V>, k: nat)
    ensures
        wake_n(s, k).wake_pending == (s.wake_pending || (k >= 1 && s.open)),
        wake_n(s, k).queued == s.queued,
        wake_n(s, k).applied == s.applied,
        wake_n(s, k).accepted == s.accepted,
        wake_n(s, k).cell == s.cell,
        wake_n(s, k).initial == s.initial,
        wake_n(s, k).open == s.open,
        wake_n(s, k).draining == s.draining,
        wake_n(s, k).passes == s.passes,
        wake_n(s, k).owed <= s.owed,
    decreases k,
{
    if k > 0 {
        lemma_wake_n(s, (k - 1) as nat);
    }
}

/// A bridge without its receiving end stays as it is, but for the count of owed
/// wake-ups.
pub proof fn lemma_closed_stays_closed<V>(s: BridgeState<V>, events: Seq<Event<V>>)
    requires
        !s.open,
        !s.draining,
        !s.wake_pending,
        s.queued == Seq::<V>::empty(),
    ensures
        run(s, events) == (BridgeState { owed: run(s, events).owed, ..s }),
    decreases events.len(),
{
    if events.len() > 0 {
        lemma_closed_stays_closed(s, events.drop_last());
    }
}

/// Whatever the order of the turns, the write handle is handed the offered items in
/// the order in which they were offered, and none before an earlier one.
pub proof fn law_order_preserved<V>(initial: V, events: Seq<Event<V>>)
    ensures
        run(init(initial), events).applied.is_prefix_of(run(init(initial), events).accepted),
        run(init(initial), events).applied.is_prefix_of(offered(events)),
{
    lemma_init_wf(initial);
    lemma_run_wf(init(initial), events);
    lemma_accepted_of_offered(initial, events);
}

/// While the bridge is open, every item offered so far is either written or still
/// queued, once and in order. Once every feeder has requested its wake-up, the
/// cell's thread settles with all of them written.
pub proof fn law_nothing_lost_nothing_doubled<V>(initial: V, events: Seq<Event<V>>)
    ensures
        ({
            let s = run(init(initial), events);
            &&& s.open ==> s.applied + s.queued == offered(events)
            &&& s.open && s.owed == 0 ==> settle(s).applied == offered(events) && settle(
                s,
            ).queued.len() == 0
        }),
{
    let s = run(init(initial), events);
    lemma_init_wf(initial);
    lemma_run_wf(init(initial), events);
    lemma_accepted_of_offered(initial, events);
    if s.open && s.owed == 0 {
        lemma_settle(s);
    }
}

/// An item is never left in the channel unless a run of the drain loop is under
/// way, or due, or some feeder has yet to request its wake-up.
pub proof fn law_no_item_is_stranded<V>(initial: V, events: Seq<Event<V>>)
    ensures
        ({
            let s = run(init(initial), events);
            s.queued.len() > 0 ==> s.draining || s.wake_pending || s.owed > 0
        }),
{
    lemma_init_wf(initial);
    lemma_run_wf(init(initial), events);
}

/// Any number of wake-up requests before the drain loop next starts cause one run
/// of it, which writes all that was queued; no second run is due after it.
pub proof fn law_wakeups_coalesce<V>(s: BridgeState<V>, k: nat)
    requires
        wf(s),
        s.open,
        !s.draining,
        k >= 1,
    ensures
        settle(wake_n(s, k)).passes == s.passes + 1,
        settle(wake_n(s, k)).applied == s.applied + s.queued,
        settle(wake_n(s, k)).queued.len() == 0,
        step(settle(wake_n(s, k)), Event::Start) == settle(wake_n(s, k)),
{
    lemma_wake_n(s, k);
    let w = wake_n(s, k);
    lemma_finish_pass(w);
    let b = step(w, Event::Start);
    lemma_finish_pass(b);
}

/// Once the drain loop's scope is disposed, nothing is written any more, every send
/// is refused and changes nothing, and a feeder that offers an item stops with that
/// one step.
pub proof fn law_teardown<V>(s: BridgeState<V>, events: Seq<Event<V>>, item: V)
    ensures
        ({
            let d = run(step(s, Event::Dispose), events);
            &&& !d.open
            &&& d.applied == s.applied
            &&& d.cell == s.cell
            &&& send_outcome(d, item) == SendOutcome::Closed(item)
            &&& step(d, Event::Send(item)) == d
            &&& action_after(send_outcome(d, item)) == FeederAction::Stop(item)
            &&& feed(d, FeederState::Awaiting, item) == (d, FeederState::Stopped)
        }),
{
    lemma_closed_stays_closed(step(s, Event::Dispose), events);
}

/// A feeder stops for good: a refusal of the channel stops it, and no answer of the
/// channel starts it again.
pub proof fn law_feeder_stops_for_good<V>(state: FeederState, outcome: SendOutcome<V>)
    ensures
        !(outcome is Delivered) ==> state_after(state, outcome) is Stopped,
        state is Stopped ==> state_after(state, outcome) is Stopped,
        state_after(state, outcome) is Awaiting ==> action_after(outcome) is RequestWakeup,
{
}

/// The items of any one feeder, told apart from the others' by `mine`, are written in
/// the order in which that feeder offered them, and none before an earlier one; an
/// open bridge with an empty channel has written them all.
pub proof fn law_each_feeder_in_order<V>(
    initial: V,
    events: Seq<Event<V>>,
    mine: spec_fn(V) -> bool,
)
    ensures
        run(init(initial), events).applied.filter(mine).is_prefix_of(
            offered(events).filter(mine),
        ),
        run(init(initial), events).open && run(init(initial), events).queued.len() == 0
            ==> run(init(initial), events).applied.filter(mine) == offered(events).filter(mine),
{
    let s = run(init(initial), events);
    law_order_preserved(initial, events);
    s.applied.lemma_filter_monotone(offered(events), mine);
    lemma_init_wf(initial);
    lemma_run_wf(init(initial), events);
    lemma_accepted_of_offered(initial, events);
    if s.open && s.queued.len() == 0 {
        assert(s.applied =~= offered(events));
    }
}

/// A take of the protocol is the drain loop's own step on the channel's answer: an
/// item that the step says to write is written and leaves the channel, and a step
/// that ends the pass ends the run.
pub proof fn law_take_follows_the_drain_step<V>(
    s: BridgeState<V>,
    writer: WriteSignal<V>,
    refused: bool,
)
    requires
        s.draining,
    ensures
        match step_after(writer, refused, channel_answer(s)) {
            DrainStep::Write(_, item) => step(s, Event::Take) == (BridgeState {
                cell: item,
                queued: s.queued.skip(1),
                applied: s.applied.push(item),
                ..s
            }),
            _ => step(s, Event::Take) == (BridgeState { draining: false, ..s }),
        },
{
}

/// A send of the protocol is answered as the feeder's step expects: the channel of
/// an open bridge takes the item and the feeder goes on, the channel of a disposed
/// one hands it back and the feeder stops.
pub proof fn law_send_follows_the_feeder_step<V>(s: BridgeState<V>, item: V)
    ensures
        s.open ==> action_after(send_outcome(s, item)) is RequestWakeup && state_after(
            FeederState::Awaiting,
            send_outcome(s, item),
        ) is Awaiting && step(s, Event::Send(item)).accepted == s.accepted.push(item),
        !s.open ==> action_after(send_outcome(s, item)) == FeederAction::Stop(item) && state_after(
            FeederState::Awaiting,
            send_outcome(s, item),
        ) is Stopped && step(s, Event::Send(item)) == s,
{
}

/// The read handle shows the initial value until the first write, and from then on
/// the item that was written last.
pub proof fn law_cell_shows_the_latest<V>(initial: V, events: Seq<Event<V>>)
    ensures
        run(init(initial), events).cell == latest(initial, run(init(initial), events).applied),
{
    lemma_init_wf(initial);
    lemma_run_wf(init(initial), events);
    lemma_accepted_of_offered(initial, events);
}

} // verus!
