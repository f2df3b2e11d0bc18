use autofishbot::gateway::{
    GatewayAction, Gateway, GatewayEvent, InboundFrame, Opcode, Phase, RECONNECT_DELAY_MS,
};

fn frame(op: Opcode) -> InboundFrame {
    InboundFrame { op, sequence: None, event_name: None, session_id: None, heartbeat_interval_ms: None }
}

fn hello(iv: u64) -> GatewayEvent {
    GatewayEvent::Frame(InboundFrame { heartbeat_interval_ms: Some(iv), ..frame(Opcode::Hello) })
}

fn connected() -> Gateway {
    let mut c = Gateway::new();
    assert_eq!(c.step(GatewayEvent::Start, 0), vec![GatewayAction::Connect]);
    assert!(c.step(GatewayEvent::Connected, 0).is_empty());
    assert_eq!(c.phase, Phase::AwaitHello);
    c
}

#[test]
fn no_heartbeat_before_hello() {
    let mut c = connected();
    assert!(c.step(GatewayEvent::HeartbeatDue, 0).is_empty());
    assert!(c.step(GatewayEvent::Frame(frame(Opcode::Heartbeat)), 0).is_empty());
    assert!(c.step(GatewayEvent::Frame(frame(Opcode::HeartbeatAck)), 0).is_empty());
    assert!(c.step(GatewayEvent::Frame(frame(Opcode::Dispatch)), 0).is_empty());
    assert_eq!(c.phase, Phase::AwaitHello);
    let acts = c.step(hello(40_000), 250);
    assert_eq!(acts, vec![GatewayAction::ScheduleHeartbeat { delay_ms: 10_000 }, GatewayAction::SendIdentify]);
    assert_eq!(c.step(GatewayEvent::HeartbeatDue, 0), vec![
        GatewayAction::SendHeartbeat { sequence: None },
        GatewayAction::ScheduleHeartbeat { delay_ms: 40_000 },
    ]);
}

#[test]
fn dispatch_tracks_sequence_and_session() {
    let mut c = connected();
    c.step(hello(1000), 0);
    let ready = InboundFrame {
        sequence: Some(1),
        event_name: Some("READY".to_string()),
        session_id: Some("abc".to_string()),
        ..frame(Opcode::Dispatch)
    };
    assert_eq!(c.step(GatewayEvent::Frame(ready), 0), vec![GatewayAction::Forward]);
    assert_eq!(c.session.session_id.as_deref(), Some("abc"));
    let older = InboundFrame { sequence: Some(0), ..frame(Opcode::Dispatch) };
    c.step(GatewayEvent::Frame(older), 0);
    assert_eq!(c.session.sequence, Some(1));
    let next = InboundFrame { sequence: Some(2), ..frame(Opcode::Dispatch) };
    assert_eq!(c.step(GatewayEvent::Frame(next), 0), vec![GatewayAction::Forward]);
    assert_eq!(c.session.sequence, Some(2));
}

#[test]
fn sequence_gap_resumes() {
    let mut c = connected();
    c.step(hello(1000), 0);
    let ready = InboundFrame {
        sequence: Some(2),
        event_name: Some("READY".to_string()),
        session_id: Some("g".to_string()),
        ..frame(Opcode::Dispatch)
    };
    c.step(GatewayEvent::Frame(ready), 0);
    let skipped = InboundFrame { sequence: Some(9), ..frame(Opcode::Dispatch) };
    let acts = c.step(GatewayEvent::Frame(skipped), 0);
    assert_eq!(acts, vec![GatewayAction::Close, GatewayAction::ReconnectAfter { delay_ms: RECONNECT_DELAY_MS }]);
    assert_eq!(c.session.sequence, Some(2));
    c.step(GatewayEvent::Start, 0);
    c.step(GatewayEvent::Connected, 0);
    assert_eq!(c.step(hello(1000), 0)[1], GatewayAction::SendResume { session_id: "g".to_string(), sequence: 2 });
}

#[test]
fn reconnect_resumes_stored_session() {
    let mut c = connected();
    c.step(hello(1000), 0);
    let ready = InboundFrame {
        sequence: Some(5),
        event_name: Some("READY".to_string()),
        session_id: Some("s1".to_string()),
        ..frame(Opcode::Dispatch)
    };
    c.step(GatewayEvent::Frame(ready), 0);
    let acts = c.step(GatewayEvent::Frame(frame(Opcode::Reconnect)), 0);
    assert_eq!(acts, vec![GatewayAction::Close, GatewayAction::ReconnectAfter { delay_ms: RECONNECT_DELAY_MS }]);
    assert_eq!(c.phase, Phase::Disconnected);
    c.step(GatewayEvent::Start, 0);
    c.step(GatewayEvent::Connected, 0);
    let acts = c.step(hello(1000), 0);
    assert_eq!(acts[1], GatewayAction::SendResume { session_id: "s1".to_string(), sequence: 5 });
}

#[test]
fn invalid_session_identifies_afresh() {
    let mut c = connected();
    c.step(hello(1000), 0);
    let ready = InboundFrame {
        sequence: Some(5),
        event_name: Some("READY".to_string()),
        session_id: Some("s1".to_string()),
        ..frame(Opcode::Dispatch)
    };
    c.step(GatewayEvent::Frame(ready), 0);
    c.step(GatewayEvent::Frame(frame(Opcode::InvalidSession)), 0);
    assert_eq!(c.session.session_id, None);
    assert_eq!(c.session.sequence, None);
    c.step(GatewayEvent::Start, 0);
    c.step(GatewayEvent::Connected, 0);
    assert_eq!(c.step(hello(1000), 0)[1], GatewayAction::SendIdentify);
}

#[test]
fn missed_ack_forces_reconnect() {
    let mut c = connected();
    c.step(hello(1000), 0);
    c.step(GatewayEvent::HeartbeatDue, 0);
    let acts = c.step(GatewayEvent::HeartbeatDue, 0);
    assert_eq!(acts[0], GatewayAction::Close);
    assert_eq!(c.phase, Phase::Disconnected);
}

#[test]
fn second_hello_restarts_fresh() {
    let mut c = connected();
    c.step(hello(1000), 0);
    let acts = c.step(hello(1000), 0);
    assert_eq!(acts[0], GatewayAction::Close);
    assert_eq!(c.phase, Phase::Disconnected);
}

#[test]
fn transport_failure_tears_down() {
    let mut c = connected();
    let acts = c.step(GatewayEvent::TransportFailed, 0);
    assert_eq!(acts, vec![GatewayAction::Close, GatewayAction::ReconnectAfter { delay_ms: RECONNECT_DELAY_MS }]);
    assert_eq!(c.phase, Phase::Disconnected);
}

#[test]
fn opcodes_round_trip() {
    for code in 0u8..=20 {
        if let Some(op) = Opcode::from_code(code) {
            assert_eq!(op.code(), code);
        }
    }
    assert_eq!(Opcode::from_code(10), Some(Opcode::Hello));
    assert_eq!(Opcode::from_code(3), None);
    assert_eq!(Opcode::Resume.code(), 6);
}

#[test]
fn hello_jitter_uses_random_draw() {
    let mut c = connected();
    let acts = c.handle(hello(1000));
    match acts[0] {
        GatewayAction::ScheduleHeartbeat { delay_ms } => assert!(delay_ms < 1000),
        ref other => panic!("unexpected {:?}", other),
    }
}

#[test]
fn identify_names_this_client() {
    let p = autofishbot::types::IdentifyPayload::for_token("SECRET-REDACTED".to_string());
    assert_eq!(p.properties.os, "linux");
    assert_eq!(p.properties.browser, "autofishbot_rs");
    assert_eq!(p.properties.device, "autofishbot_rs");
    let g = Gateway::new();
    assert_eq!(g.session.heartbeat_interval_ms, 41250);
    assert!(!g.session.heartbeat_acked);
}
