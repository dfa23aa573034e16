use thermal_rs::matrix::TemperatureMatrix;
use thermal_rs::session::{offers, Frame, Reply, Session, SessionState, SUB_PROTOCOL};
use thermal_rs::store::SnapshotStore;

fn active_session() -> Session {
    let mut s = Session::new();
    assert!(s.handshake(&vec!["thermal-rs".to_string()]));
    s
}

fn five_store() -> SnapshotStore {
    let mut store = SnapshotStore::new(1, 1);
    store.set(TemperatureMatrix::from_rows(vec![vec![5.0f32.to_bits()]]));
    store
}

fn encode(m: &TemperatureMatrix) -> String {
    let values: Vec<Vec<f32>> = m
        .rows
        .iter()
        .map(|row| row.iter().map(|b| f32::from_bits(*b)).collect())
        .collect();
    serde_json::to_string(&values).unwrap()
}

#[test]
fn protocol_name_is_thermal_rs() {
    assert_eq!(SUB_PROTOCOL, "thermal-rs");
}

#[test]
fn handshake_accepts_listed_protocol() {
    let mut s = Session::new();
    assert_eq!(s.state(), SessionState::Negotiating);
    assert!(s.handshake(&vec!["chat".to_string(), "thermal-rs".to_string()]));
    assert_eq!(s.state(), SessionState::Active);
}

#[test]
fn handshake_rejects_missing_protocol() {
    let store = five_store();
    for offered in [vec![], vec!["chat".to_string()], vec!["Thermal-RS".to_string()]] {
        let mut s = Session::new();
        assert!(!s.handshake(&offered));
        assert!(s.is_closed());
        assert!(s.on_frame(Frame::Text("ping-me".to_string()), &store).is_none());
        assert!(s.on_frame(Frame::Binary(vec![1]), &store).is_none());
    }
}

#[test]
fn offers_finds_protocol_anywhere() {
    assert!(offers(&vec!["a".to_string(), "b".to_string(), "thermal-rs".to_string()]));
    assert!(!offers(&vec!["thermal".to_string(), "rs".to_string()]));
    assert!(!offers(&vec![]));
}

#[test]
fn second_handshake_is_refused() {
    let mut s = active_session();
    assert!(!s.handshake(&vec!["thermal-rs".to_string()]));
    assert_eq!(s.state(), SessionState::Active);
}

#[test]
fn frames_before_handshake_get_no_reply() {
    let store = five_store();
    let mut s = Session::new();
    assert!(s.on_frame(Frame::Text("x".to_string()), &store).is_none());
    assert_eq!(s.state(), SessionState::Negotiating);
}

#[test]
fn ping_gets_pong_with_same_payload() {
    let store = five_store();
    let mut s = active_session();
    match s.on_frame(Frame::Ping(b"abc".to_vec()), &store) {
        Some(Reply::Pong(p)) => assert_eq!(p, b"abc".to_vec()),
        _ => panic!("expected a pong"),
    }
    assert_eq!(s.state(), SessionState::Active);
}

#[test]
fn close_is_answered_and_ends_session() {
    let store = five_store();
    let mut s = active_session();
    assert!(matches!(s.on_frame(Frame::Close, &store), Some(Reply::Close)));
    assert!(s.is_closed());
    assert!(s.on_frame(Frame::Ping(b"abc".to_vec()), &store).is_none());
    assert!(s.on_frame(Frame::Close, &store).is_none());
}

#[test]
fn text_frame_triggers_snapshot() {
    let store = five_store();
    let mut s = active_session();
    match s.on_frame(Frame::Text("ping-me".to_string()), &store) {
        Some(Reply::Snapshot(m)) => assert_eq!(encode(&m), "[[5.0]]"),
        _ => panic!("expected a snapshot"),
    }
    assert_eq!(s.state(), SessionState::Active);
}

#[test]
fn binary_and_pong_frames_trigger_snapshot() {
    let store = five_store();
    let mut s = active_session();
    assert!(matches!(s.on_frame(Frame::Binary(vec![0, 1]), &store), Some(Reply::Snapshot(_))));
    assert!(matches!(s.on_frame(Frame::Pong(vec![7]), &store), Some(Reply::Snapshot(_))));
}

#[test]
fn empty_store_gives_empty_snapshot() {
    let store = SnapshotStore::new(8, 8);
    let mut s = active_session();
    match s.on_frame(Frame::Text(String::new()), &store) {
        Some(Reply::Snapshot(m)) => assert_eq!(encode(&m), "[]"),
        _ => panic!("expected a snapshot"),
    }
}

#[test]
fn transport_error_ends_only_that_session() {
    let store = five_store();
    let mut a = active_session();
    let mut b = active_session();
    a.on_transport_error();
    assert!(a.is_closed());
    assert!(a.on_frame(Frame::Text("x".to_string()), &store).is_none());
    match b.on_frame(Frame::Text("x".to_string()), &store) {
        Some(Reply::Snapshot(m)) => assert_eq!(encode(&m), "[[5.0]]"),
        _ => panic!("expected a snapshot"),
    }
}
