use floem_reactive::{batch, create_effect, create_rw_signal, with_scope, Scope, SignalGet, SignalUpdate};
use signal_bridge::bridge::{
    bridge_into, bridge_with_initial, write_into, write_into_scope, writer_to_triggered_sender,
    Bridge,
};
use signal_bridge::drain::{DrainLoop, DrainStep};
use signal_bridge::feeder::{Feeder, FeederAction};
use std::cell::{Cell, RefCell};
use std::rc::Rc;

fn install<V: 'static>(drain: DrainLoop<V>) -> Rc<Cell<usize>> {
    let passes = Rc::new(Cell::new(0));
    let counted = passes.clone();
    drain.scope().create_effect(move |_| match drain.start() {
        Some((mut pass, trigger)) => {
            counted.set(counted.get() + 1);
            trigger.track();
            loop {
                match pass.next() {
                    DrainStep::Write(writer, item) => {
                        pass.wrote(writer.try_update(|slot| *slot = item).is_some())
                    }
                    DrainStep::Return => break,
                    DrainStep::Retire => break Scope::current().dispose(),
                }
            }
        }
        None => Scope::current().dispose(),
    });
    passes
}

fn attach<V: 'static>(bridge: Bridge<V>) -> Feeder<V> {
    install(bridge.drain);
    bridge.feeder
}

#[test]
fn initial_value_until_the_first_drain_then_the_last_item() {
    let (bridge, read) = bridge_with_initial(0);
    let mut feeder = attach(bridge);
    assert_eq!(read.get_untracked(), 0);
    for item in [5, 7, 9] {
        assert_eq!(feeder.offer(item), FeederAction::RequestWakeup);
    }
    assert_eq!(read.get_untracked(), 0);
    feeder.trigger().notify();
    assert_eq!(read.get_untracked(), 9);
}

#[test]
fn every_item_reaches_the_cell_once_and_in_order() {
    let cell = create_rw_signal(0);
    let seen = Rc::new(RefCell::new(Vec::new()));
    let log = seen.clone();
    create_effect(move |_| log.borrow_mut().push(cell.get()));
    let (bridge, read) = bridge_into(cell);
    let mut feeder = attach(bridge);
    for item in [1, 2, 3] {
        assert_eq!(feeder.offer(item), FeederAction::RequestWakeup);
    }
    feeder.trigger().notify();
    assert_eq!(read.get_untracked(), 3);
    assert_eq!(*seen.borrow(), vec![0, 1, 2, 3]);
    assert!(!feeder.is_stopped());
}

#[test]
fn order_holds_across_several_wakeups() {
    let cell = create_rw_signal(0);
    let seen = Rc::new(RefCell::new(Vec::new()));
    let log = seen.clone();
    create_effect(move |_| log.borrow_mut().push(cell.get()));
    let mut feeder = attach(write_into(cell.write_only()));
    let trigger = feeder.trigger();
    feeder.offer(1);
    trigger.notify();
    assert_eq!(cell.get_untracked(), 1);
    feeder.offer(2);
    feeder.offer(3);
    trigger.notify();
    trigger.notify();
    feeder.offer(4);
    trigger.notify();
    assert_eq!(*seen.borrow(), vec![0, 1, 2, 3, 4]);
}

#[test]
fn sender_and_trigger_feed_the_writer() {
    let cell = create_rw_signal(String::from("start"));
    let wiring = writer_to_triggered_sender(cell.write_only());
    install(wiring.drain);
    wiring.sender.send(String::from("next")).unwrap();
    assert_eq!(cell.get_untracked(), "start");
    wiring.trigger.notify();
    assert_eq!(cell.get_untracked(), "next");
}

#[test]
fn write_into_starts_awaiting() {
    let cell = create_rw_signal(1u8);
    let feeder = attach(write_into(cell.write_only()));
    assert!(!feeder.is_stopped());
    assert_eq!(cell.get_untracked(), 1);
}

#[test]
fn five_wakeups_in_one_batch_make_one_run_that_writes_five_items() {
    let cell = create_rw_signal(0);
    let writes = Rc::new(RefCell::new(Vec::new()));
    let log = writes.clone();
    create_effect(move |_| log.borrow_mut().push(cell.get()));
    let bridge = write_into(cell.write_only());
    let passes = install(bridge.drain);
    let mut feeder = bridge.feeder;
    let trigger = feeder.trigger();
    assert_eq!(passes.get(), 1);
    for item in 1..=5 {
        assert_eq!(feeder.offer(item), FeederAction::RequestWakeup);
    }
    batch(|| {
        for _ in 0..5 {
            trigger.notify();
        }
    });
    assert_eq!(passes.get(), 2);
    assert_eq!(cell.get_untracked(), 5);
    assert_eq!(*writes.borrow(), vec![0, 1, 2, 3, 4, 5]);
}

#[test]
fn a_wakeup_after_many_runs_is_delivered_like_the_first() {
    let (bridge, read) = bridge_with_initial(0);
    let passes = install(bridge.drain);
    let mut feeder = bridge.feeder;
    for item in 1..=20 {
        assert_eq!(feeder.offer(item), FeederAction::RequestWakeup);
        feeder.trigger().notify();
        assert_eq!(read.get_untracked(), item);
        assert_eq!(passes.get(), 1 + item as usize);
    }
}

#[test]
fn one_pass_takes_all_that_is_queued() {
    let cell = create_rw_signal(0);
    let bridge = write_into(cell.write_only());
    let mut feeder = bridge.feeder;
    for item in 1..=5 {
        assert_eq!(feeder.offer(item), FeederAction::RequestWakeup);
    }
    let (mut pass, trigger) = bridge.drain.start().unwrap();
    assert_eq!(format!("{:?}", trigger), format!("{:?}", feeder.trigger()));
    let mut written = Vec::new();
    while let DrainStep::Write(writer, item) = pass.next() {
        assert!(writer == cell.write_only());
        writer.set(item);
        pass.wrote(true);
        written.push(item);
    }
    assert_eq!(written, vec![1, 2, 3, 4, 5]);
    assert!(pass.emptied());
    assert_eq!(cell.get_untracked(), 5);
    let (mut pass, _) = bridge.drain.start().unwrap();
    assert!(!pass.emptied());
    assert!(matches!(pass.next(), DrainStep::Return));
    assert!(pass.emptied());
}

#[test]
fn a_pass_that_is_over_leaves_the_channel_alone() {
    let cell = create_rw_signal(0);
    let bridge = write_into(cell.write_only());
    let mut feeder = bridge.feeder;
    let (mut pass, _) = bridge.drain.start().unwrap();
    assert!(matches!(pass.next(), DrainStep::Return));
    assert_eq!(feeder.offer(1), FeederAction::RequestWakeup);
    assert!(matches!(pass.next(), DrainStep::Return));
    let (mut pass, _) = bridge.drain.start().unwrap();
    assert!(matches!(pass.next(), DrainStep::Write(_, 1)));
    assert!(matches!(pass.next(), DrainStep::Return));
}

#[test]
fn no_pass_starts_once_the_scope_is_disposed() {
    let scope = Scope::new();
    let cell = create_rw_signal(0);
    let bridge = write_into_scope(scope, cell.write_only());
    assert_eq!(format!("{:?}", bridge.drain.scope()), format!("{:?}", scope));
    assert!(bridge.drain.start().is_some());
    assert!(bridge.drain.start_if(true).is_some());
    assert!(bridge.drain.start_if(false).is_none());
    scope.dispose();
    assert!(bridge.drain.start().is_none());
}

#[test]
fn a_wakeup_without_items_changes_nothing() {
    let (bridge, read) = bridge_with_initial(3);
    let feeder = attach(bridge);
    feeder.trigger().notify();
    feeder.trigger().notify();
    assert_eq!(read.get_untracked(), 3);
}

#[test]
fn disposing_the_scope_stops_the_feeder_at_its_next_offer() {
    let scope = Scope::new();
    let cell = scope.create_rw_signal(0);
    let mut feeder = attach(write_into_scope(scope, cell.write_only()));
    assert_eq!(feeder.offer(1), FeederAction::RequestWakeup);
    feeder.trigger().notify();
    assert_eq!(cell.get_untracked(), 1);
    scope.dispose();
    assert_eq!(feeder.offer(2), FeederAction::Stop(2));
    assert!(feeder.is_stopped());
    assert_eq!(feeder.offer(3), FeederAction::Stop(3));
    assert!(feeder.is_stopped());
    feeder.trigger().notify();
    assert_eq!(cell.try_get_untracked(), None);
}

#[test]
fn disposing_the_scope_of_a_new_cell_stops_its_feeder() {
    let scope = Scope::new();
    let (bridge, read) = with_scope(scope, || bridge_with_initial(0));
    let mut feeder = with_scope(scope, || attach(bridge));
    assert_eq!(feeder.offer(1), FeederAction::RequestWakeup);
    feeder.trigger().notify();
    assert_eq!(read.get_untracked(), 1);
    scope.dispose();
    assert_eq!(read.try_get_untracked(), None);
    assert_eq!(feeder.offer(2), FeederAction::Stop(2));
    assert!(feeder.is_stopped());
}

#[test]
fn disposing_the_scope_of_an_attached_cell_stops_its_feeder() {
    let scope = Scope::new();
    let cell = scope.create_rw_signal(0);
    let mut feeder = with_scope(scope, || attach(write_into(cell.write_only())));
    assert_eq!(feeder.offer(1), FeederAction::RequestWakeup);
    scope.dispose();
    assert_eq!(feeder.offer(2), FeederAction::Stop(2));
    assert!(feeder.is_stopped());
}

#[test]
fn what_is_queued_at_disposal_is_dropped() {
    let scope = Scope::new();
    let cell = create_rw_signal(0);
    let mut feeder = attach(write_into_scope(scope, cell.write_only()));
    assert_eq!(feeder.offer(1), FeederAction::RequestWakeup);
    scope.dispose();
    feeder.trigger().notify();
    assert_eq!(cell.get_untracked(), 0);
    assert_eq!(feeder.offer(2), FeederAction::Stop(2));
}

#[test]
fn a_disposal_between_a_wakeup_and_its_run_is_survived() {
    let scope = Scope::new();
    let cell = create_rw_signal(0);
    let bridge = write_into_scope(scope, cell.write_only());
    let passes = install(bridge.drain);
    let mut feeder = bridge.feeder;
    assert_eq!(feeder.offer(1), FeederAction::RequestWakeup);
    batch(|| {
        feeder.trigger().notify();
        scope.dispose();
    });
    assert_eq!(passes.get(), 1);
    assert_eq!(cell.get_untracked(), 0);
    assert_eq!(feeder.offer(2), FeederAction::Stop(2));
    assert!(feeder.is_stopped());
}

#[test]
fn a_disposal_by_another_effect_of_the_same_wakeup_is_survived() {
    for round in 0..64 {
        let scope = Scope::new();
        let cell = create_rw_signal(0);
        let bridge = write_into_scope(scope, cell.write_only());
        let trigger = bridge.feeder.trigger();
        let armed = Rc::new(Cell::new(false));
        let disposer = |armed: Rc<Cell<bool>>| {
            create_effect(move |_| {
                trigger.track();
                if armed.get() {
                    scope.dispose();
                }
            })
        };
        if round % 2 == 0 {
            disposer(armed.clone());
        }
        let mut feeder = attach(bridge);
        if round % 2 == 1 {
            disposer(armed.clone());
        }
        armed.set(true);
        assert_eq!(feeder.offer(1), FeederAction::RequestWakeup);
        trigger.notify();
        assert_eq!(feeder.offer(2), FeederAction::Stop(2));
    }
}

#[test]
fn a_refused_write_is_not_made_again_and_the_pass_goes_on() {
    let cell = create_rw_signal(0);
    let bridge = write_into(cell.write_only());
    let mut feeder = bridge.feeder;
    for item in [1, 2, 3] {
        assert_eq!(feeder.offer(item), FeederAction::RequestWakeup);
    }
    let (mut pass, _) = bridge.drain.start().unwrap();
    assert!(matches!(pass.next(), DrainStep::Write(_, 1)));
    pass.wrote(false);
    assert!(matches!(pass.next(), DrainStep::Write(_, 2)));
    pass.wrote(true);
    assert!(matches!(pass.next(), DrainStep::Write(_, 3)));
    pass.wrote(true);
    assert!(matches!(pass.next(), DrainStep::Retire));
    assert!(pass.emptied());
    assert!(matches!(pass.next(), DrainStep::Retire));
    let (mut pass, _) = bridge.drain.start().unwrap();
    assert!(matches!(pass.next(), DrainStep::Return));
}

#[test]
fn a_cell_disposed_apart_from_the_bridge_takes_the_bridge_with_it() {
    let scope = Scope::new();
    let cell = scope.create_rw_signal(0);
    let bridge = write_into(cell.write_only());
    let passes = install(bridge.drain);
    let mut feeder = bridge.feeder;
    scope.dispose();
    for item in [1, 2, 3] {
        assert_eq!(feeder.offer(item), FeederAction::RequestWakeup);
    }
    feeder.trigger().notify();
    assert_eq!(passes.get(), 2);
    assert_eq!(cell.try_get_untracked(), None);
    assert_eq!(feeder.offer(4), FeederAction::Stop(4));
    assert!(feeder.is_stopped());
    feeder.trigger().notify();
    assert_eq!(passes.get(), 2);
}

#[test]
fn a_channel_without_receiver_hands_the_item_back() {
    let (sender, receiver) = crossbeam_channel::unbounded();
    let mut feeder = Feeder::new(sender, Scope::new().create_trigger());
    assert_eq!(feeder.offer(6), FeederAction::RequestWakeup);
    assert_eq!(receiver.try_recv(), Ok(6));
    drop(receiver);
    assert_eq!(feeder.offer(7), FeederAction::Stop(7));
    assert!(feeder.is_stopped());
}

#[test]
fn a_full_channel_hands_the_item_back_and_stops_the_feeder() {
    let (sender, receiver) = crossbeam_channel::bounded(1);
    let mut feeder = Feeder::new(sender, Scope::new().create_trigger());
    assert_eq!(feeder.offer(1), FeederAction::RequestWakeup);
    assert_eq!(feeder.offer(2), FeederAction::Stop(2));
    assert!(feeder.is_stopped());
    assert_eq!(receiver.try_recv(), Ok(1));
    assert_eq!(feeder.offer(3), FeederAction::Stop(3));
    assert!(receiver.try_recv().is_err());
}

#[test]
fn a_stopped_feeder_leaves_the_channel_alone() {
    let (sender, receiver) = crossbeam_channel::bounded(1);
    let mut feeder = Feeder::new(sender, Scope::new().create_trigger());
    feeder.offer(1);
    feeder.offer(2);
    assert!(feeder.is_stopped());
    assert_eq!(receiver.try_recv(), Ok(1));
    assert_eq!(feeder.offer(3), FeederAction::Stop(3));
    assert_eq!(receiver.len(), 0);
}

#[test]
fn producers_on_other_threads_keep_their_order() {
    let cell = create_rw_signal((0usize, 0usize));
    let seen = Rc::new(RefCell::new(Vec::new()));
    let log = seen.clone();
    create_effect(move |_| log.borrow_mut().push(cell.get()));
    let wiring = writer_to_triggered_sender(cell.write_only());
    install(wiring.drain);
    let (sender, trigger) = (wiring.sender, wiring.trigger);
    let runtime = tokio::runtime::Builder::new_multi_thread()
        .worker_threads(2)
        .build()
        .unwrap();
    let mut tasks = Vec::new();
    for producer in 1..=4usize {
        let mut feeder = Feeder::new(sender.clone(), trigger);
        tasks.push(runtime.spawn_blocking(move || {
            for count in 1..=500usize {
                assert_eq!(feeder.offer((producer, count)), FeederAction::RequestWakeup);
            }
        }));
        trigger.notify();
    }
    for task in tasks {
        runtime.block_on(task).unwrap();
        trigger.notify();
    }
    let seen = seen.borrow();
    assert_eq!(seen.len(), 1 + 4 * 500);
    for producer in 1..=4usize {
        let counts: Vec<usize> = seen.iter().filter(|item| item.0 == producer).map(|item| item.1).collect();
        assert_eq!(counts, (1..=500usize).collect::<Vec<usize>>());
    }
}
