use arm_bridge::error::IngestError;
use arm_bridge::ingestion::{next_step, LoopStep, StreamItem};
use arm_bridge::record::WirePayload;
use arm_bridge::session::{
    BusAction, BusEvent, BusSession, ConnectionState, SubscribeDecision, SubscribeRetry,
};

#[test]
fn connect_retries_without_limit() {
    let mut s = BusSession::new();
    assert_eq!(s.state, ConnectionState::Disconnected);
    assert_eq!(s.start(), BusAction::Connect);
    for _ in 0..100 {
        assert_eq!(s.on_event(BusEvent::ConnectFailed), BusAction::RetryConnectAfter(5));
        assert_eq!(s.state, ConnectionState::Connecting);
    }
    assert_eq!(s.on_event(BusEvent::Connected { session_present: false }), BusAction::Subscribe);
    assert_eq!(s.state, ConnectionState::Connected);
}

#[test]
fn disconnect_then_reconnect_resumes_in_order() {
    let mut s = BusSession::new();
    s.start();
    s.on_event(BusEvent::Connected { session_present: false });
    let events = vec![
        BusEvent::Message,
        BusEvent::ConnectionLost,
        BusEvent::ConnectFailed,
        BusEvent::Connected { session_present: true },
        BusEvent::Message,
    ];
    let actions: Vec<BusAction> = events.into_iter().map(|e| s.on_event(e)).collect();
    assert_eq!(
        actions,
        vec![
            BusAction::Process,
            BusAction::Reconnect,
            BusAction::RetryReconnectAfter(1),
            BusAction::Resume,
            BusAction::Process,
        ]
    );
    assert_eq!(s.state, ConnectionState::Connected);
}

#[test]
fn reconnect_without_session_resubscribes() {
    let mut s = BusSession::new();
    s.start();
    s.on_event(BusEvent::Connected { session_present: false });
    assert_eq!(s.on_event(BusEvent::ConnectionLost), BusAction::Reconnect);
    assert_eq!(s.state, ConnectionState::Reconnecting);
    assert_eq!(s.on_event(BusEvent::Connected { session_present: false }), BusAction::Subscribe);
}

#[test]
fn subscribe_gives_up_at_fifth_attempt() {
    let mut r = SubscribeRetry::new();
    let mut decisions = Vec::new();
    loop {
        let d = r.on_failure();
        decisions.push(d);
        if d == SubscribeDecision::GiveUp {
            break;
        }
    }
    assert_eq!(decisions.len(), 5);
    assert_eq!(r.attempts, 5);
    for d in &decisions[..4] {
        assert_eq!(*d, SubscribeDecision::RetryAfter(5));
    }
}

#[test]
fn stream_items_are_told_apart() {
    let mut s = BusSession::new();
    s.start();
    s.on_event(BusEvent::Connected { session_present: false });
    let bad = next_step(&mut s, StreamItem::Message { topic: "left_arm".to_string(), payload: None });
    assert!(matches!(bad, LoopStep::Dropped(IngestError::Decode)));
    assert_eq!(s.state, ConnectionState::Connected);
    let wrong = next_step(
        &mut s,
        StreamItem::Message {
            topic: "elbow".to_string(),
            payload: Some(WirePayload { timestamp: 5, matrices: "{}".to_string() }),
        },
    );
    assert!(matches!(wrong, LoopStep::Dropped(IngestError::InvalidChannel)));
    let good = next_step(
        &mut s,
        StreamItem::Message {
            topic: "left_arm".to_string(),
            payload: Some(WirePayload { timestamp: 1700000000123, matrices: "{}".to_string() }),
        },
    );
    match good {
        LoopStep::Write(rec) => {
            assert_eq!(rec.timestamp.seconds, 1700000000);
            assert_eq!(rec.timestamp.nanoseconds, 123000000);
        }
        _ => panic!("expected a record to write"),
    }
    assert!(matches!(next_step(&mut s, StreamItem::Disconnected), LoopStep::Reconnect));
    assert_eq!(s.state, ConnectionState::Reconnecting);
    assert_eq!(s.on_event(BusEvent::Connected { session_present: true }), BusAction::Resume);
}
