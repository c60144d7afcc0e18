use aivory_monitor::capture::{build_record, ExceptionCapture};
use aivory_monitor::config::Config;
use aivory_monitor::context::Context;
use aivory_monitor::inbound::{read_inbound, rejects_credentials, same_text, Inbound};
use aivory_monitor::transport::{
    endpoint, reconnect_delay, Connection, ConnectionState, OutgoingMessage, Payload,
    TransportAction, TransportEvent,
};

fn config() -> Config {
    Config::new("key").backend_url("ws://localhost:19999/ws").platform("linux", "x86_64")
}

fn record(kind: &str) -> ExceptionCapture {
    build_record(
        "id-1".to_string(),
        kind.to_string(),
        "boom".to_string(),
        Vec::new(),
        Context::new(),
        "2024-01-01T00:00:00+00:00".to_string(),
        &config(),
    )
}

fn registered() -> Connection {
    let mut c = Connection::new();
    assert_eq!(c.handle(TransportEvent::ConnectDue, &config()), TransportAction::Open);
    assert_eq!(
        c.handle(TransportEvent::Opened { now_ms: 1000 }, &config()),
        TransportAction::StartDuties
    );
    c
}

#[test]
fn new_connection_is_disconnected() {
    let c = Connection::new();
    assert_eq!(c.state(), ConnectionState::Disconnected);
    assert!(!c.is_connected());
    assert_eq!(c.failures(), 0);
    assert!(!c.has_given_up());
    assert_eq!(c.pending(), 0);
}

#[test]
fn default_connection_is_new() {
    let c = Connection::default();
    assert_eq!(c.state(), ConnectionState::Disconnected);
    assert_eq!(c.failures(), 0);
    assert_eq!(c.pending(), 0);
}

#[test]
fn reconnect_delay_follows_powers_of_two() {
    let expected = [1u64, 2, 4, 8, 16, 32, 64, 64, 64, 64, 64];
    for (n, want) in expected.iter().enumerate() {
        assert_eq!(reconnect_delay(n as u32), *want);
    }
    assert_eq!(reconnect_delay(1000), 64);
    assert_eq!(reconnect_delay(u32::MAX), 64);
}

#[test]
fn consecutive_failures_wait_longer_then_give_up() {
    let cfg = config();
    let mut c = Connection::new();
    let mut waits = Vec::new();
    let mut attempts = 0;
    loop {
        assert_eq!(c.handle(TransportEvent::ConnectDue, &cfg), TransportAction::Open);
        attempts += 1;
        assert_eq!(c.state(), ConnectionState::Connecting);
        match c.handle(TransportEvent::OpenFailed, &cfg) {
            TransportAction::Wait { seconds } => waits.push(seconds),
            TransportAction::GiveUp => break,
            other => panic!("unexpected action {:?}", other),
        }
        assert_eq!(c.state(), ConnectionState::Disconnected);
    }
    assert_eq!(attempts, 10);
    assert_eq!(waits, vec![2, 4, 8, 16, 32, 64, 64, 64, 64]);
    assert!(waits.windows(2).all(|w| w[0] <= w[1]));
    assert!(c.has_given_up());
    assert_eq!(c.failures(), 10);
    assert_eq!(c.state(), ConnectionState::Disconnected);
    assert_eq!(c.handle(TransportEvent::ConnectDue, &cfg), TransportAction::Idle);
    assert_eq!(c.state(), ConnectionState::Disconnected);
    assert!(!c.enqueue(OutgoingMessage::heartbeat(1)));
    assert_eq!(c.pending(), 0);
}

#[test]
fn registration_resets_failures() {
    let cfg = config();
    let mut c = Connection::new();
    for _ in 0..4 {
        c.handle(TransportEvent::ConnectDue, &cfg);
        c.handle(TransportEvent::OpenFailed, &cfg);
    }
    assert_eq!(c.failures(), 4);
    c.handle(TransportEvent::ConnectDue, &cfg);
    assert_eq!(c.handle(TransportEvent::Opened { now_ms: 5 }, &cfg), TransportAction::StartDuties);
    assert_eq!(c.failures(), 0);
    assert!(c.is_connected());
    assert_eq!(c.handle(TransportEvent::Lost, &cfg), TransportAction::Wait { seconds: 2 });
    assert_eq!(c.failures(), 1);
}

#[test]
fn registration_message_is_queued_first() {
    let mut c = registered();
    assert_eq!(c.pending(), 1);
    assert!(c.enqueue(OutgoingMessage::heartbeat(2000)));
    let first = c.next_outbound().unwrap();
    assert_eq!(first.msg_type, "register");
    assert_eq!(first.timestamp, 1000);
    match first.payload {
        Payload::Register(r) => {
            let cfg = config();
            assert_eq!(r.api_key, "key");
            assert_eq!(r.agent_id.len(), 23);
            assert_eq!(r.hostname, cfg.hostname);
            assert_eq!(r.environment, "production");
            assert_eq!(r.agent_version, "1.0.1");
            assert_eq!(r.runtime, "rust");
            assert_eq!(r.runtime_version, "1.0.0");
            assert_eq!(r.platform, "linux");
            assert_eq!(r.arch, "x86_64");
        }
        other => panic!("unexpected payload {:?}", other),
    }
    let second = c.next_outbound().unwrap();
    assert_eq!(second.msg_type, "heartbeat");
    assert!(matches!(second.payload, Payload::Heartbeat { timestamp: 2000 }));
    assert_eq!(second.timestamp, 2000);
    assert!(c.next_outbound().is_none());
}

#[test]
fn messages_leave_in_the_order_they_came() {
    let mut c = registered();
    c.next_outbound();
    for i in 0..5 {
        assert!(c.enqueue(OutgoingMessage::exception(record(&format!("E{}", i)), i)));
    }
    assert_eq!(c.pending(), 5);
    for i in 0..5 {
        let m = c.next_outbound().unwrap();
        assert_eq!(m.msg_type, "exception");
        assert_eq!(m.timestamp, i);
        match m.payload {
            Payload::Exception(r) => assert_eq!(r.exception_type, format!("E{}", i)),
            other => panic!("unexpected payload {:?}", other),
        }
    }
    assert!(c.next_outbound().is_none());
}

#[test]
fn record_sent_while_disconnected_is_dropped() {
    let cfg = config();
    let mut c = Connection::new();
    assert!(!c.send_exception(record("IoError")));
    assert_eq!(c.pending(), 0);
    assert!(c.next_outbound().is_none());
    c.handle(TransportEvent::ConnectDue, &cfg);
    assert!(!c.send_exception(record("IoError")));
    assert_eq!(c.pending(), 0);
    c.handle(TransportEvent::Opened { now_ms: 1 }, &cfg);
    assert_eq!(c.pending(), 1);
    let only = c.next_outbound().unwrap();
    assert_eq!(only.msg_type, "register");
    assert!(c.next_outbound().is_none());
}

#[test]
fn record_sent_while_registered_is_queued() {
    let mut c = registered();
    c.next_outbound();
    assert!(c.send_exception(record("IoError")));
    assert!(c.send_heartbeat());
    assert_eq!(c.pending(), 2);
    let m = c.next_outbound().unwrap();
    assert_eq!(m.msg_type, "exception");
    assert!(m.timestamp > 1_600_000_000_000);
    match m.payload {
        Payload::Exception(r) => {
            assert_eq!(r.exception_type, "IoError");
            assert_eq!(r.message, "boom");
            assert_eq!(r.fingerprint, "e170b765f19c4d23");
        }
        other => panic!("unexpected payload {:?}", other),
    }
}

#[test]
fn losing_the_connection_drops_queued_messages() {
    let cfg = config();
    let mut c = registered();
    c.enqueue(OutgoingMessage::heartbeat(1));
    assert_eq!(c.pending(), 2);
    assert_eq!(c.handle(TransportEvent::Lost, &cfg), TransportAction::Wait { seconds: 2 });
    assert_eq!(c.state(), ConnectionState::Disconnected);
    assert_eq!(c.pending(), 0);
    assert!(c.next_outbound().is_none());
}

#[test]
fn stop_is_terminal() {
    let cfg = config();
    let mut c = registered();
    assert_eq!(c.disconnect(&cfg), TransportAction::Close);
    assert_eq!(c.state(), ConnectionState::Closing);
    assert_eq!(c.pending(), 0);
    for event in [
        TransportEvent::ConnectDue,
        TransportEvent::Opened { now_ms: 3 },
        TransportEvent::OpenFailed,
        TransportEvent::Lost,
        TransportEvent::Rejected,
        TransportEvent::Stop,
    ] {
        assert_eq!(c.handle(event, &cfg), TransportAction::Idle);
        assert_eq!(c.state(), ConnectionState::Closing);
    }
    assert!(!c.send_exception(record("E")));
    assert!(c.connect(&cfg).is_none());
}

#[test]
fn events_out_of_place_change_nothing() {
    let cfg = config();
    let mut c = Connection::new();
    assert_eq!(c.handle(TransportEvent::Opened { now_ms: 1 }, &cfg), TransportAction::Idle);
    assert_eq!(c.handle(TransportEvent::Lost, &cfg), TransportAction::Idle);
    assert_eq!(c.state(), ConnectionState::Disconnected);
    assert_eq!(c.failures(), 0);
    let mut c = registered();
    assert_eq!(c.handle(TransportEvent::ConnectDue, &cfg), TransportAction::Idle);
    assert_eq!(c.handle(TransportEvent::Opened { now_ms: 9 }, &cfg), TransportAction::Idle);
    assert!(c.is_connected());
    assert_eq!(c.pending(), 1);
}

#[test]
fn connect_returns_the_normalised_endpoint() {
    let mut c = Connection::new();
    let cfg = Config::new("k").backend_url("WS://LocalHost:19999/api/../ws");
    assert_eq!(c.connect(&cfg).as_deref(), Some("ws://localhost:19999/ws"));
    assert_eq!(c.state(), ConnectionState::Connecting);
    assert!(c.connect(&cfg).is_none());
    assert_eq!(c.state(), ConnectionState::Connecting);
}

#[test]
fn connect_refuses_an_address_that_is_no_url() {
    let mut c = Connection::new();
    let cfg = Config::new("k").backend_url("not a url");
    assert!(c.connect(&cfg).is_none());
    assert_eq!(c.state(), ConnectionState::Disconnected);
    assert_eq!(c.failures(), 0);
}

#[test]
fn endpoint_normalises_urls() {
    assert_eq!(endpoint("wss://api.aivory.net/ws/agent").as_deref(), Some("wss://api.aivory.net/ws/agent"));
    assert_eq!(endpoint("ws://EXAMPLE.com").as_deref(), Some("ws://example.com/"));
    assert_eq!(endpoint("").as_deref(), None);
    assert_eq!(endpoint("/relative/path").as_deref(), None);
}

#[test]
fn inbound_acknowledgment_is_read() {
    let m = read_inbound(r#"{"type":"registered","payload":{"agent":"a"},"timestamp":1}"#);
    assert!(matches!(m, Inbound::Registered));
    assert!(!rejects_credentials(&m));
}

#[test]
fn inbound_error_is_read_with_code_and_message() {
    let m = read_inbound(r#"{"type":"error","payload":{"code":"auth_error","message":"bad key"}}"#);
    match &m {
        Inbound::Error { code, message } => {
            assert_eq!(code, "auth_error");
            assert_eq!(message, "bad key");
        }
        other => panic!("unexpected message {:?}", other),
    }
    assert!(rejects_credentials(&m));
    let m = read_inbound(r#"{"type":"error","payload":{"code":"invalid_api_key"}}"#);
    assert!(matches!(&m, Inbound::Error { code, message } if code == "invalid_api_key" && message == "Unknown error"));
    assert!(rejects_credentials(&m));
}

#[test]
fn inbound_error_without_details_gets_defaults() {
    for text in [
        r#"{"type":"error"}"#,
        r#"{"type":"error","payload":null}"#,
        r#"{"type":"error","payload":{"code":7,"message":[]}}"#,
        r#"{"type":"error","payload":"auth_error"}"#,
    ] {
        let m = read_inbound(text);
        assert!(
            matches!(&m, Inbound::Error { code, message } if code == "unknown" && message == "Unknown error"),
            "{}",
            text
        );
        assert!(!rejects_credentials(&m));
    }
    let m = read_inbound(r#"{"type":"error","payload":{"code":"rate_limited","message":"slow down"}}"#);
    assert!(matches!(&m, Inbound::Error { code, .. } if code == "rate_limited"));
    assert!(!rejects_credentials(&m));
}

#[test]
fn inbound_of_other_type_is_passed_over() {
    let m = read_inbound(r#"{"type":"pong"}"#);
    assert!(matches!(&m, Inbound::Other { msg_type } if msg_type == "pong"));
    assert!(!rejects_credentials(&m));
    let m = read_inbound(r#"{"type":"Registered"}"#);
    assert!(matches!(&m, Inbound::Other { .. }));
}

#[test]
fn inbound_that_is_no_message_is_unreadable() {
    for text in ["", "not json", "[]", "42", r#"{"payload":{}}"#, r#"{"type":5}"#, r#"{"type":"error""#] {
        assert!(matches!(read_inbound(text), Inbound::Unreadable), "{}", text);
    }
}

#[test]
fn same_text_compares_characters() {
    assert!(same_text("abc", "abc"));
    assert!(!same_text("abc", "abd"));
    assert!(!same_text("abc", "ab"));
    assert!(same_text("", ""));
}

#[test]
fn rejected_credentials_end_the_connection() {
    let cfg = config();
    let mut c = registered();
    let action = c.receive(r#"{"type":"error","payload":{"code":"auth_error","message":"no"}}"#, &cfg);
    assert_eq!(action, TransportAction::Wait { seconds: 2 });
    assert_eq!(c.state(), ConnectionState::Disconnected);
    assert_eq!(c.failures(), 1);
    assert_eq!(c.pending(), 0);
}

#[test]
fn other_inbound_messages_change_nothing() {
    let cfg = config();
    let mut c = registered();
    for text in [
        r#"{"type":"registered"}"#,
        r#"{"type":"error","payload":{"code":"rate_limited"}}"#,
        r#"{"type":"pong"}"#,
        "garbage",
    ] {
        assert_eq!(c.receive(text, &cfg), TransportAction::Idle);
        assert!(c.is_connected());
        assert_eq!(c.failures(), 0);
        assert_eq!(c.pending(), 1);
    }
}

#[test]
fn tenth_failure_in_a_row_gives_up_whatever_its_kind() {
    let cfg = config();
    for last in [TransportEvent::OpenFailed, TransportEvent::Lost, TransportEvent::Rejected] {
        let mut c = Connection::new();
        for _ in 0..9 {
            assert_eq!(c.handle(TransportEvent::ConnectDue, &cfg), TransportAction::Open);
            assert!(matches!(c.handle(TransportEvent::Lost, &cfg), TransportAction::Wait { .. }));
        }
        assert_eq!(c.failures(), 9);
        assert!(!c.has_given_up());
        assert_eq!(c.handle(TransportEvent::ConnectDue, &cfg), TransportAction::Open);
        assert_eq!(c.handle(last, &cfg), TransportAction::GiveUp);
        assert_eq!(c.failures(), 10);
        assert!(c.has_given_up());
        assert_eq!(c.handle(TransportEvent::ConnectDue, &cfg), TransportAction::Idle);
        assert_eq!(c.handle(TransportEvent::Opened { now_ms: 1 }, &cfg), TransportAction::Idle);
        assert_eq!(c.state(), ConnectionState::Disconnected);
        assert!(!c.send_exception(record("E")));
    }
}

#[test]
fn registration_after_nine_failures_starts_the_count_anew() {
    let cfg = config();
    let mut c = Connection::new();
    for _ in 0..9 {
        c.handle(TransportEvent::ConnectDue, &cfg);
        c.handle(TransportEvent::OpenFailed, &cfg);
    }
    c.handle(TransportEvent::ConnectDue, &cfg);
    assert_eq!(c.handle(TransportEvent::Opened { now_ms: 1 }, &cfg), TransportAction::StartDuties);
    assert_eq!(c.handle(TransportEvent::Lost, &cfg), TransportAction::Wait { seconds: 2 });
    assert!(!c.has_given_up());
    assert_eq!(c.failures(), 1);
}
