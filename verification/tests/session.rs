use signal_relay::admission::LiveCounter;
use signal_relay::message::BroadcastMsg;
use signal_relay::rooms::RoomRegistry;
use signal_relay::session::{Inbound, Session, SessionState};
use std::sync::Arc;
use tokio::sync::broadcast::error::TryRecvError;
use tokio::sync::broadcast::Receiver;

const SECOND: u128 = 1_000_000_000;

fn text(frame: &str) -> Inbound {
    Inbound::Text(frame.to_string())
}

fn parse(text: &str) -> serde_json::Value {
    serde_json::from_str(text).unwrap()
}

fn running(live: &mut LiveCounter, rooms: &mut RoomRegistry) -> Session {
    let mut session = Session::open(live, rooms);
    session.identity_sent(true);
    session.activate(0);
    session
}

fn named(live: &mut LiveCounter, rooms: &mut RoomRegistry, id: &str) -> Session {
    let mut session = Session::open_with(live, rooms, id.to_string(), 7);
    session.identity_sent(true);
    session.activate(0);
    session
}

/// What the peer of `session` is sent for everything that waits in `rx`.
fn drain(session: &Session, rx: &mut Receiver<Arc<BroadcastMsg>>) -> Vec<String> {
    let mut written = Vec::new();
    loop {
        match rx.try_recv() {
            Ok(msg) => {
                if let Some(payload) = session.on_broadcast(&msg) {
                    written.push(payload);
                }
            }
            Err(TryRecvError::Lagged(_)) => {}
            Err(_) => return written,
        }
    }
}

#[test]
fn session_begins_admitted_and_counted() {
    let mut live = LiveCounter::new();
    let mut rooms = RoomRegistry::new();
    let session = Session::open_with(&mut live, &mut rooms, "A".to_string(), 7);
    assert_eq!(session.state(), SessionState::Admitted);
    assert_eq!(session.id(), "A");
    assert_eq!(session.room().room_id(), 7);
    assert!(!session.is_active());
    assert_eq!(live.count(), 1);
    assert_eq!(rooms.occupancy(7), Some(1));
}

#[test]
fn identity_frame_carries_the_server_identity() {
    let mut live = LiveCounter::new();
    let mut rooms = RoomRegistry::new();
    let session = Session::open(&mut live, &mut rooms);
    assert_eq!(session.id().len(), 36);
    assert_eq!(
        session.identity(),
        format!("{{\"type\":\"identity\",\"senderId\":\"{}\"}}", session.id())
    );
}

#[test]
fn session_walks_through_its_states() {
    let mut live = LiveCounter::new();
    let mut rooms = RoomRegistry::new();
    let mut session = Session::open(&mut live, &mut rooms);
    session.activate(0);
    assert_eq!(session.state(), SessionState::Admitted);
    session.identity_sent(true);
    assert_eq!(session.state(), SessionState::Identified);
    session.identity_sent(false);
    assert_eq!(session.state(), SessionState::Identified);
    session.activate(0);
    assert_eq!(session.state(), SessionState::Active);
    assert!(session.is_active());
    session.on_inbound(Inbound::Close, 1);
    assert_eq!(session.state(), SessionState::Draining);
    assert!(session.cleanup(&mut live, &mut rooms));
    assert_eq!(session.state(), SessionState::Closed);
}

#[test]
fn failed_identity_frame_drains_the_session() {
    let mut live = LiveCounter::new();
    let mut rooms = RoomRegistry::new();
    let mut session = Session::open(&mut live, &mut rooms);
    session.identity_sent(false);
    assert_eq!(session.state(), SessionState::Draining);
    session.activate(0);
    assert_eq!(session.state(), SessionState::Draining);
    assert!(session.cleanup(&mut live, &mut rooms));
    assert_eq!(live.count(), 0);
    assert_eq!(rooms.room_count(), 0);
}

#[test]
fn three_peer_fan_out() {
    let mut live = LiveCounter::new();
    let mut rooms = RoomRegistry::new();
    let mut a = running(&mut live, &mut rooms);
    let b = running(&mut live, &mut rooms);
    let c = running(&mut live, &mut rooms);
    assert_eq!(rooms.room_count(), 1);
    assert_ne!(a.id(), b.id());
    assert_ne!(b.id(), c.id());
    for session in [&a, &b, &c] {
        let identity = parse(&session.identity());
        assert_eq!(identity["type"], "identity");
        assert_eq!(identity["senderId"], session.id());
    }
    let mut rx_a = a.room().subscribe();
    let mut rx_b = b.room().subscribe();
    let mut rx_c = c.room().subscribe();

    let published = a.on_inbound(text("{\"t\":\"hello\"}"), 1).unwrap();
    a.room().publish(published);

    let expected = parse(&format!("{{\"t\":\"hello\",\"senderId\":\"{}\"}}", a.id()));
    let to_b = drain(&b, &mut rx_b);
    assert_eq!(to_b.len(), 1);
    assert_eq!(parse(&to_b[0]), expected);
    let to_c = drain(&c, &mut rx_c);
    assert_eq!(to_c.len(), 1);
    assert_eq!(parse(&to_c[0]), expected);
    assert_eq!(drain(&a, &mut rx_a), Vec::<String>::new());
}

#[test]
fn spoofed_sender_reaches_the_room_corrected() {
    let mut live = LiveCounter::new();
    let mut rooms = RoomRegistry::new();
    let mut a = named(&mut live, &mut rooms, "A");
    let b = named(&mut live, &mut rooms, "B");
    let c = named(&mut live, &mut rooms, "C");
    let mut rx_b = b.room().subscribe();
    let mut rx_c = c.room().subscribe();
    let published = a.on_inbound(text("{\"senderId\":\"B\",\"x\":1}"), 1).unwrap();
    assert_eq!(published.sender_id, "A");
    a.room().publish(published);
    for written in [drain(&b, &mut rx_b), drain(&c, &mut rx_c)] {
        assert_eq!(written.len(), 1);
        assert_eq!(parse(&written[0])["senderId"], "A");
        assert_eq!(parse(&written[0])["x"], 1);
    }
}

#[test]
fn hard_rate_limit() {
    let mut live = LiveCounter::new();
    let mut rooms = RoomRegistry::new();
    let mut a = named(&mut live, &mut rooms, "A");
    let b = named(&mut live, &mut rooms, "B");
    let c = named(&mut live, &mut rooms, "C");
    let mut rx_b = b.room().subscribe();
    let mut rx_c = c.room().subscribe();

    for n in 1..=51u128 {
        assert!(a.is_active(), "before frame {}", n);
        let frame = format!("{{\"n\":{}}}", n);
        if let Some(msg) = a.on_inbound(text(&frame), n * 1_000_000) {
            a.room().publish(msg);
        }
    }
    assert_eq!(a.state(), SessionState::Draining);
    assert!(a.cleanup(&mut live, &mut rooms));
    assert_eq!(a.state(), SessionState::Closed);

    for written in [drain(&b, &mut rx_b), drain(&c, &mut rx_c)] {
        assert_eq!(written.len(), 11);
        for n in 1..=10usize {
            let frame = parse(&written[n - 1]);
            assert_eq!(frame["n"], n);
            assert_eq!(frame["senderId"], "A");
        }
        assert_eq!(written[10], "{\"type\":\"leave\",\"senderId\":\"A\"}");
    }
    assert_eq!(live.count(), 2);
    assert_eq!(rooms.occupancy(7), Some(2));
}

#[test]
fn dropped_frames_keep_the_session() {
    let mut live = LiveCounter::new();
    let mut rooms = RoomRegistry::new();
    let mut a = named(&mut live, &mut rooms, "A");
    for n in 1..=10u128 {
        assert!(a.on_inbound(text("{}"), n).is_some());
    }
    for n in 11..=50u128 {
        assert_eq!(a.on_inbound(text("{}"), n), None);
        assert!(a.is_active());
    }
    assert!(a.on_inbound(text("{}"), SECOND).is_some());
    assert!(a.is_active());
}

#[test]
fn malformed_frames_are_dropped_and_counted() {
    let mut live = LiveCounter::new();
    let mut rooms = RoomRegistry::new();
    let mut a = named(&mut live, &mut rooms, "A");
    for n in 1..=10u128 {
        assert_eq!(a.on_inbound(text("not json"), n), None);
        assert!(a.is_active());
    }
    assert_eq!(a.on_inbound(text("{}"), 11), None);
    assert_eq!(a.on_inbound(text("[1]"), SECOND), None);
    assert!(a.on_inbound(text("{}"), SECOND + 1).is_some());
}

#[test]
fn other_frames_are_ignored_and_not_counted() {
    let mut live = LiveCounter::new();
    let mut rooms = RoomRegistry::new();
    let mut a = named(&mut live, &mut rooms, "A");
    for n in 0..100u128 {
        assert_eq!(a.on_inbound(Inbound::Binary, n), None);
        assert_eq!(a.on_inbound(Inbound::Ping, n), None);
        assert_eq!(a.on_inbound(Inbound::Pong, n), None);
    }
    assert!(a.is_active());
    assert!(a.on_inbound(text("{}"), 100).is_some());
}

#[test]
fn close_frame_and_read_error_drain_the_session() {
    let mut live = LiveCounter::new();
    let mut rooms = RoomRegistry::new();
    let mut a = named(&mut live, &mut rooms, "A");
    assert_eq!(a.on_inbound(Inbound::Close, 1), None);
    assert_eq!(a.state(), SessionState::Draining);
    let mut b = named(&mut live, &mut rooms, "B");
    assert_eq!(b.on_inbound(Inbound::ReadError, 1), None);
    assert_eq!(b.state(), SessionState::Draining);
    assert_eq!(b.on_inbound(text("{}"), 2), None);
    assert_eq!(b.state(), SessionState::Draining);
}

#[test]
fn failed_write_drains_the_session() {
    let mut live = LiveCounter::new();
    let mut rooms = RoomRegistry::new();
    let mut a = named(&mut live, &mut rooms, "A");
    a.write_failed();
    assert_eq!(a.state(), SessionState::Draining);
    let msg = BroadcastMsg { sender_id: "B".to_string(), payload: "{}".to_string() };
    assert_eq!(a.on_broadcast(&msg), None);
}

#[test]
fn session_that_is_not_active_relays_nothing() {
    let mut live = LiveCounter::new();
    let mut rooms = RoomRegistry::new();
    let mut a = Session::open_with(&mut live, &mut rooms, "A".to_string(), 7);
    let msg = BroadcastMsg { sender_id: "B".to_string(), payload: "{}".to_string() };
    assert_eq!(a.on_inbound(text("{}"), 1), None);
    assert_eq!(a.on_broadcast(&msg), None);
    assert_eq!(a.state(), SessionState::Admitted);
}

#[test]
fn sender_never_receives_its_own_frames() {
    let mut live = LiveCounter::new();
    let mut rooms = RoomRegistry::new();
    let a = named(&mut live, &mut rooms, "A");
    let own = BroadcastMsg { sender_id: "A".to_string(), payload: "{\"mine\":1}".to_string() };
    let other = BroadcastMsg { sender_id: "B".to_string(), payload: "{\"theirs\":1}".to_string() };
    assert_eq!(a.on_broadcast(&own), None);
    assert_eq!(a.on_broadcast(&other), Some("{\"theirs\":1}".to_string()));
}

#[test]
fn cleanup_is_idempotent() {
    let mut live = LiveCounter::new();
    let mut rooms = RoomRegistry::new();
    let mut a = named(&mut live, &mut rooms, "A");
    let b = named(&mut live, &mut rooms, "B");
    let mut rx_b = b.room().subscribe();
    assert_eq!(live.count(), 2);
    assert_eq!(rooms.occupancy(7), Some(2));

    assert!(a.cleanup(&mut live, &mut rooms));
    assert_eq!(live.count(), 1);
    assert_eq!(rooms.occupancy(7), Some(1));
    assert!(!a.cleanup(&mut live, &mut rooms));
    assert_eq!(live.count(), 1);
    assert_eq!(rooms.occupancy(7), Some(1));
    assert_eq!(a.state(), SessionState::Closed);

    let written = drain(&b, &mut rx_b);
    assert_eq!(written, vec!["{\"type\":\"leave\",\"senderId\":\"A\"}".to_string()]);
}

#[test]
fn counters_return_after_a_session() {
    let mut live = LiveCounter::new();
    let mut rooms = RoomRegistry::new();
    let _resident = named(&mut live, &mut rooms, "R");
    let before = (live.count(), rooms.room_count(), rooms.occupancy(7));
    let mut visitor = named(&mut live, &mut rooms, "V");
    assert_eq!(rooms.occupancy(7), Some(2));
    visitor.on_inbound(Inbound::Close, 1);
    visitor.cleanup(&mut live, &mut rooms);
    assert_eq!((live.count(), rooms.room_count(), rooms.occupancy(7)), before);
}

#[test]
fn last_session_removes_its_room() {
    let mut live = LiveCounter::new();
    let mut rooms = RoomRegistry::new();
    let mut only = running(&mut live, &mut rooms);
    let room = only.room().room_id();
    assert_eq!(rooms.occupancy(room), Some(1));
    only.cleanup(&mut live, &mut rooms);
    assert_eq!(rooms.occupancy(room), None);
    assert_eq!(rooms.room_count(), 0);
    assert_eq!(live.count(), 0);
}

#[test]
fn leave_arrives_after_the_frames_of_the_sender() {
    let mut live = LiveCounter::new();
    let mut rooms = RoomRegistry::new();
    let mut a = named(&mut live, &mut rooms, "A");
    let b = named(&mut live, &mut rooms, "B");
    let mut rx_b = b.room().subscribe();
    for n in 1..=3u128 {
        let msg = a.on_inbound(text(&format!("{{\"n\":{}}}", n)), n).unwrap();
        a.room().publish(msg);
    }
    a.cleanup(&mut live, &mut rooms);
    let written = drain(&b, &mut rx_b);
    assert_eq!(written.len(), 4);
    assert_eq!(parse(&written[0])["n"], 1);
    assert_eq!(parse(&written[2])["n"], 3);
    assert_eq!(parse(&written[3])["type"], "leave");
}
