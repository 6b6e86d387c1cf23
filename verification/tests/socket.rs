use socketio_rs::enums::packet::PacketType;
use socketio_rs::enums::protocol::ProtocolVersion;
use socketio_rs::socket::builder::{request_target_of, SocketBuilder};
use socketio_rs::socket::events::{
    dispatch_events_of, event_packet_from_bytes, event_with_text, register_listener,
};
use socketio_rs::socket::handshake::{
    client_handshake, handshake_reply, handshake_request, HandshakeReply,
};
use socketio_rs::socket::ping::{ping_interval_of, ping_payload, PingAction, PingCycle};
use socketio_rs::socket::query::QueryMap;
use socketio_rs::socket::reconnect::{
    reconnect_followups, reconnect_plan, AttemptStep, PingRestart, ReconnectAction,
    ReconnectAttempts, ReconnectError,
};
use socketio_rs::socket::worker::{close_reason_str, worker_step, CloseReason, FrameRead, WorkerStep};
use socketio_rs::strmap::StrMap;
use socketio_rs::structs::handshake::Handshake;
use socketio_rs::structs::reconnect::ReconnectConfiguration;

fn config(enable: bool, count: Option<u64>, force: bool) -> ReconnectConfiguration<()> {
    ReconnectConfiguration {
        enable_reconnect: enable,
        reconnect_count: count,
        reconnect_delay: 300,
        request: (),
        force_handshake: force,
        ignore_invalid_proxy: false,
        ignore_proxy_env_vars: false,
        proxy: None,
    }
}

#[test]
fn raw_query_is_parsed() {
    let mut q = QueryMap::new();
    q.add_raw_query("??a=1&b=2&junk&a=3&x?y=4");
    assert_eq!(q.len(), 3);
    assert_eq!(q.get("a").map(|s| s.as_str()), Some("3"));
    assert_eq!(q.get("b").map(|s| s.as_str()), Some("2"));
    assert_eq!(q.get("y").map(|s| s.as_str()), Some("4"));
    assert_eq!(q.get("junk"), None);
}

#[test]
fn builder_reads_query_of_request_uri() {
    let b: SocketBuilder<(), u8> =
        SocketBuilder::new_with_request((), "ws://localhost:3000/socket.io/?EIO=3&transport=websocket");
    let parts = b.into_parts();
    assert_eq!(parts.query.get("EIO").map(|s| s.as_str()), Some("3"));
    assert_eq!(parts.query.get("transport").map(|s| s.as_str()), Some("websocket"));
    assert_eq!(parts.protocol, ProtocolVersion::V3);
    assert!(!parts.force_handshake);
}

#[test]
fn builder_setters_and_listeners() {
    let mut b: SocketBuilder<(), u8> = SocketBuilder::new_with_request((), "ws://h/");
    b.namespace("chat".to_string()).force_handshake(true).on("message", 1).on("message", 2).on_any(9);
    b.raw_query("?k=v");
    let b = b.proxy("http://proxy:8080".to_string());
    let parts = b.into_parts();
    assert_eq!(parts.namespace.as_deref(), Some("chat"));
    assert!(parts.force_handshake);
    assert_eq!(parts.listeners.get("message"), Some(&vec![1, 2]));
    assert_eq!(parts.wildcard_listener, Some(9));
    assert_eq!(parts.query.get("k").map(|s| s.as_str()), Some("v"));
    assert_eq!(parts.proxy.as_deref(), Some("http://proxy:8080"));
}

#[test]
fn wildcard_event_registers_for_every_event() {
    let mut listeners: StrMap<Vec<u8>> = StrMap::new();
    let mut wildcard = None;
    register_listener(&mut listeners, &mut wildcard, "*", 7);
    register_listener(&mut listeners, &mut wildcard, "a", 1);
    assert_eq!(wildcard, Some(7));
    assert_eq!(listeners.get("a"), Some(&vec![1]));
    assert_eq!(listeners.get("*"), None);
}

#[test]
fn worker_dispatches_decoded_packets() {
    match worker_step(FrameRead::Data(br#"0{"sid":"s"}"#.to_vec())) {
        WorkerStep::Dispatch { packet, events } => {
            assert_eq!(packet.packet_type, PacketType::Connect);
            assert_eq!(events, vec!["handshake".to_string()]);
        }
        _ => panic!("expected a dispatch"),
    }
    match worker_step(FrameRead::Data(br#"42,["news",1]"#.to_vec())) {
        WorkerStep::Dispatch { events, .. } => assert_eq!(events, vec!["news".to_string()]),
        _ => panic!("expected a dispatch"),
    }
}

#[test]
fn worker_skips_and_closes() {
    assert!(matches!(worker_step(FrameRead::Data(b"zz".to_vec())), WorkerStep::Continue));
    assert!(matches!(worker_step(FrameRead::Other), WorkerStep::Continue));
    assert!(matches!(
        worker_step(FrameRead::Close),
        WorkerStep::Close { reason: CloseReason::Closed, wait: false }
    ));
    assert!(matches!(
        worker_step(FrameRead::IoError { eof: true }),
        WorkerStep::Close { reason: CloseReason::UnexpectedEof, wait: true }
    ));
    assert!(matches!(worker_step(FrameRead::IoError { eof: false }), WorkerStep::Stop));
    assert!(matches!(worker_step(FrameRead::Data(b"222,[".to_vec())), WorkerStep::Abort));
    assert_eq!(close_reason_str(CloseReason::UnexpectedEof), "Unexpected EOF");
}

#[test]
fn close_packet_carries_reason() {
    let p = event_with_text("Close");
    assert_eq!(p.packet_type, PacketType::Event);
    assert_eq!(p.data.unwrap().as_str(), "\"Close\"");
}

#[test]
fn sending_bytes_makes_event_packets() {
    let p = event_packet_from_bytes(b"[1,2]").unwrap();
    assert_eq!(p.packet_type, PacketType::Event);
    assert_eq!(p.data.unwrap().as_str(), "[1,2]");
    assert!(event_packet_from_bytes(&[0xff]).is_none());
}

#[test]
fn dispatch_events_for_targets() {
    let p = socketio_rs::parser::Packet::new(PacketType::Message, None, Some("t".to_string()), None);
    assert_eq!(dispatch_events_of(&p), vec!["t".to_string()]);
}

#[test]
fn ping_cycle_order() {
    let mut c = PingCycle::new(1000);
    assert_eq!(c.next(true), PingAction::EmitPing);
    assert_eq!(c.next(true), PingAction::SendPing);
    assert_eq!(c.next(false), PingAction::EmitPing);
    assert_eq!(c.next(true), PingAction::SendPing);
    assert_eq!(c.next(true), PingAction::EmitPong);
    assert_eq!(c.next(true), PingAction::Sleep(1000));
    assert_eq!(c.next(true), PingAction::EmitPing);
    assert_eq!(ping_payload(), "ping");
}

#[test]
fn ping_interval_defaults() {
    assert_eq!(ping_interval_of(None), 25000);
    let h = Handshake { sid: None, upgrades: vec![], ping_timeout: 1, ping_interval: 7 };
    assert_eq!(ping_interval_of(Some(&h)), 7);
}

#[test]
fn reconnect_attempts_respect_limit() {
    let mut a = ReconnectAttempts::new(Some(3), 250);
    assert_eq!(a.next(), AttemptStep::Attempt { wait: None });
    assert_eq!(a.next(), AttemptStep::Attempt { wait: Some(250) });
    assert_eq!(a.next(), AttemptStep::Attempt { wait: Some(250) });
    assert_eq!(a.next(), AttemptStep::GiveUp);
    let mut unlimited = ReconnectAttempts::new(None, 250);
    for _ in 0..5 {
        assert_eq!(unlimited.next(), AttemptStep::Attempt { wait: None });
    }
    let mut none = ReconnectAttempts::of_configuration(&config(true, Some(0), false));
    assert_eq!(none.next(), AttemptStep::GiveUp);
}

#[test]
fn reconnect_plan_and_errors() {
    assert_eq!(reconnect_plan::<()>(None), Err(ReconnectError::NotConfigured));
    assert_eq!(reconnect_plan(Some(&config(false, None, false))), Err(ReconnectError::Disabled));
    let plan = reconnect_plan(Some(&config(true, None, true))).unwrap();
    assert_eq!(
        plan,
        vec![
            ReconnectAction::StopListenerWorker,
            ReconnectAction::ReplaceConnection,
            ReconnectAction::EmitSocketConnect,
            ReconnectAction::StopPingWorker,
            ReconnectAction::Handshake,
            ReconnectAction::StartPingWorker,
            ReconnectAction::Run,
            ReconnectAction::EmitReconnect,
            ReconnectAction::EmitReconnect,
        ]
    );
    assert_eq!(reconnect_plan(Some(&config(true, None, false))).unwrap().len(), 6);
}

#[test]
fn reconnect_followups_cases() {
    let f = reconnect_followups(true, true, true, false, None);
    assert!(f.restart_listener_worker && f.emit_socket_reconnect);
    assert_eq!(f.ping_worker, PingRestart::Start { delay: 5000, interval: 25000 });
    let f = reconnect_followups(false, true, true, false, Some(10));
    assert!(!f.restart_listener_worker && !f.emit_socket_reconnect);
    assert_eq!(f.ping_worker, PingRestart::Skip);
    let f = reconnect_followups(true, false, false, false, Some(10));
    assert_eq!(f.ping_worker, PingRestart::MissingHandle { delay: 5000 });
}

#[test]
fn client_handshake_request() {
    let h = client_handshake();
    assert_eq!(h.upgrades, vec!["websocket".to_string()]);
    assert_eq!((h.ping_timeout, h.ping_interval), (20000, 25000));
    let p = handshake_request(r#"{"sid":null,"upgrades":["websocket"],"pingTimeout":20000,"pingInterval":25000}"#.to_string());
    assert_eq!(
        socketio_rs::parser::Packet::encode(p),
        r#"0{"pingInterval":25000,"pingTimeout":20000,"sid":null,"upgrades":["websocket"]}"#
    );
}

#[test]
fn request_target_from_url() {
    let (uri, host) = request_target_of("WS://Example.COM:8080/socket.io/?EIO=4").unwrap();
    assert_eq!(uri, "ws://example.com:8080/socket.io/?EIO=4");
    assert_eq!(host, "example.com");

    let (uri, host) = request_target_of("mailto:someone@example.com").unwrap();
    assert_eq!(uri, "mailto:someone@example.com");
    assert_eq!(host, "mailto:someone@example.com");

    assert!(request_target_of("not a url").is_none());
}

#[test]
fn handshake_reply_cases() {
    assert!(matches!(handshake_reply(None), HandshakeReply::Ignore));
    assert!(matches!(handshake_reply(Some(b"x")), HandshakeReply::Ignore));
    assert!(matches!(handshake_reply(Some(&[0xff, 0xfe])), HandshakeReply::Ignore));
    assert!(matches!(handshake_reply(Some("42,[é".as_bytes())), HandshakeReply::Abort));
    match handshake_reply(Some(br#"0{"sid":"a","upgrades":[],"pingTimeout":1,"pingInterval":2}"#)) {
        HandshakeReply::Accept { packet } => {
            assert_eq!(packet.packet_type, PacketType::Connect);
            assert_eq!(
                packet.data.unwrap().as_str(),
                r#"{"pingInterval":2,"pingTimeout":1,"sid":"a","upgrades":[]}"#
            );
        }
        other => panic!("unexpected {:?}", other),
    }
}
