use serena::bus::{ChangeBus, RecvOutcome, DEFAULT_BUS_CAPACITY};

#[test]
fn fan_out_reaches_every_subscriber() {
    let mut bus = ChangeBus::new(DEFAULT_BUS_CAPACITY);
    let a = bus.subscribe();
    let b = bus.subscribe();
    let c = bus.subscribe();
    bus.publish();
    assert_eq!(bus.receive(a), RecvOutcome::Signal);
    assert_eq!(bus.receive(b), RecvOutcome::Signal);
    assert_eq!(bus.receive(c), RecvOutcome::Signal);
    assert_eq!(bus.receive(a), RecvOutcome::Pending);
}

#[test]
fn publish_with_no_subscribers_is_fine() {
    let mut bus = ChangeBus::new(DEFAULT_BUS_CAPACITY);
    bus.publish();
    bus.publish();
    assert_eq!(bus.subscriber_count(), 0);
}

#[test]
fn slow_subscriber_loses_only_its_own_signals() {
    let mut bus = ChangeBus::new(2);
    let slow = bus.subscribe();
    let fast = bus.subscribe();
    bus.publish();
    assert_eq!(bus.receive(fast), RecvOutcome::Signal);
    bus.publish();
    assert_eq!(bus.receive(fast), RecvOutcome::Signal);
    bus.publish();
    assert_eq!(bus.receive(fast), RecvOutcome::Signal);
    // the slow subscriber overflowed its queue of two: one signal dropped
    assert_eq!(bus.receive(slow), RecvOutcome::Missed(1));
    assert_eq!(bus.receive(slow), RecvOutcome::Signal);
    assert_eq!(bus.receive(slow), RecvOutcome::Signal);
    assert_eq!(bus.receive(slow), RecvOutcome::Pending);
    // the fast subscriber saw every signal and was never affected
    assert_eq!(bus.receive(fast), RecvOutcome::Pending);
}

#[test]
fn missed_count_is_reported_once_then_reset() {
    let mut bus = ChangeBus::new(1);
    let id = bus.subscribe();
    bus.publish();
    bus.publish();
    bus.publish();
    assert_eq!(bus.receive(id), RecvOutcome::Missed(2));
    assert_eq!(bus.receive(id), RecvOutcome::Signal);
    assert_eq!(bus.receive(id), RecvOutcome::Pending);
}

#[test]
fn subscription_sees_only_later_signals() {
    let mut bus = ChangeBus::new(DEFAULT_BUS_CAPACITY);
    bus.publish();
    let late = bus.subscribe();
    assert_eq!(bus.receive(late), RecvOutcome::Pending);
    bus.publish();
    assert_eq!(bus.receive(late), RecvOutcome::Signal);
}

#[test]
fn close_drains_then_reports_closed_forever() {
    let mut bus = ChangeBus::new(DEFAULT_BUS_CAPACITY);
    let id = bus.subscribe();
    bus.publish();
    bus.publish();
    bus.close();
    assert_eq!(bus.receive(id), RecvOutcome::Signal);
    assert_eq!(bus.receive(id), RecvOutcome::Signal);
    assert_eq!(bus.receive(id), RecvOutcome::Closed);
    assert_eq!(bus.receive(id), RecvOutcome::Closed);
}

#[test]
fn close_with_overflow_reports_missed_before_closed() {
    let mut bus = ChangeBus::new(1);
    let id = bus.subscribe();
    bus.publish();
    bus.publish();
    bus.close();
    assert_eq!(bus.receive(id), RecvOutcome::Missed(1));
    assert_eq!(bus.receive(id), RecvOutcome::Signal);
    assert_eq!(bus.receive(id), RecvOutcome::Closed);
}

#[test]
fn the_default_queue_bound_is_thirty_two() {
    assert_eq!(DEFAULT_BUS_CAPACITY, 32);
    let mut bus = ChangeBus::new(DEFAULT_BUS_CAPACITY);
    let id = bus.subscribe();
    for _ in 0..33 {
        bus.publish();
    }
    assert_eq!(bus.receive(id), RecvOutcome::Missed(1));
    for _ in 0..32 {
        assert_eq!(bus.receive(id), RecvOutcome::Signal);
    }
    assert_eq!(bus.receive(id), RecvOutcome::Pending);
}

#[test]
fn subscribing_after_close_finds_the_bus_closed() {
    let mut bus = ChangeBus::new(DEFAULT_BUS_CAPACITY);
    bus.close();
    let late = bus.subscribe();
    assert_eq!(bus.receive(late), RecvOutcome::Closed);
}

#[test]
fn unsubscribe_drops_the_count() {
    let mut bus = ChangeBus::new(DEFAULT_BUS_CAPACITY);
    let a = bus.subscribe();
    let b = bus.subscribe();
    assert_eq!(bus.subscriber_count(), 2);
    bus.unsubscribe(a);
    assert_eq!(bus.subscriber_count(), 1);
    bus.publish();
    assert_eq!(bus.receive(b), RecvOutcome::Signal);
    bus.unsubscribe(b);
    assert_eq!(bus.subscriber_count(), 0);
}
