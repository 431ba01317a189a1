use serena::bus::{ChangeBus, RecvOutcome, DEFAULT_BUS_CAPACITY};
use serena::session::{
    frame_text, stream_headers, Frame, NotificationSession, SessionEvent, KEEP_ALIVE_INTERVAL_SECS,
};

#[test]
fn keep_alive_frame_is_a_comment_line() {
    assert_eq!(frame_text(Frame::KeepAlive), ":\n\n");
}

#[test]
fn reload_frame_carries_the_datum() {
    assert_eq!(frame_text(Frame::Reload), "data: reload\n\n");
}

#[test]
fn keep_alive_interval_is_fifteen_seconds() {
    assert_eq!(KEEP_ALIVE_INTERVAL_SECS, 15);
}

#[test]
fn ticks_alone_emit_keep_alives_and_no_reload() {
    let mut bus = ChangeBus::new(DEFAULT_BUS_CAPACITY);
    let mut session = NotificationSession::connect(&mut bus);
    assert_eq!(session.step(SessionEvent::Tick), Some(Frame::KeepAlive));
    assert_eq!(session.poll_bus(&mut bus), None);
    assert_eq!(session.step(SessionEvent::Tick), Some(Frame::KeepAlive));
    assert!(session.live);
}

#[test]
fn each_delivery_becomes_one_reload_frame() {
    let mut bus = ChangeBus::new(DEFAULT_BUS_CAPACITY);
    let mut session = NotificationSession::connect(&mut bus);
    bus.publish();
    bus.publish();
    assert_eq!(session.poll_bus(&mut bus), Some(Frame::Reload));
    assert_eq!(session.poll_bus(&mut bus), Some(Frame::Reload));
    assert_eq!(session.poll_bus(&mut bus), None);
}

#[test]
fn a_missed_count_still_reloads() {
    let mut bus = ChangeBus::new(1);
    let mut session = NotificationSession::connect(&mut bus);
    bus.publish();
    bus.publish();
    assert_eq!(
        session.step(SessionEvent::FromBus(RecvOutcome::Missed(1))),
        Some(Frame::Reload)
    );
}

#[test]
fn write_failure_ends_the_session_and_releases_it() {
    let mut bus = ChangeBus::new(DEFAULT_BUS_CAPACITY);
    let mut session = NotificationSession::connect(&mut bus);
    assert_eq!(bus.subscriber_count(), 1);
    assert_eq!(session.step(SessionEvent::WriteFailed), None);
    assert!(!session.live);
    assert_eq!(session.step(SessionEvent::Tick), None);
    session.release(&mut bus);
    assert_eq!(bus.subscriber_count(), 0);
}

#[test]
fn bus_closure_ends_the_session() {
    let mut bus = ChangeBus::new(DEFAULT_BUS_CAPACITY);
    let mut session = NotificationSession::connect(&mut bus);
    bus.close();
    assert_eq!(session.poll_bus(&mut bus), None);
    assert!(!session.live);
}

#[test]
fn two_sessions_end_independently() {
    let mut bus = ChangeBus::new(DEFAULT_BUS_CAPACITY);
    let mut one = NotificationSession::connect(&mut bus);
    let mut two = NotificationSession::connect(&mut bus);
    assert_eq!(bus.subscriber_count(), 2);
    one.step(SessionEvent::WriteFailed);
    one.release(&mut bus);
    assert_eq!(bus.subscriber_count(), 1);
    bus.publish();
    assert_eq!(two.poll_bus(&mut bus), Some(Frame::Reload));
}

#[test]
fn stream_headers_open_an_event_stream() {
    let h = stream_headers();
    assert_eq!(h.len(), 3);
    assert_eq!(h[0].0, "content-type");
    assert_eq!(h[0].1, "text/event-stream");
    assert_eq!(h[1].0, "cache-control");
    assert_eq!(h[1].1, "no-cache");
    assert_eq!(h[2].0, "connection");
    assert_eq!(h[2].1, "keep-alive");
}
