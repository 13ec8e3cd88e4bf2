use cloudpipe::error::CloudflareErrorKind;
use cloudpipe::event::{
    cf_kind_name, event_to_payload, log_level_str, Event, LogLevel, ShutdownReason,
};
use cloudpipe::protocol::Protocol;
use serde_json::Value;

#[test]
fn banner_maps_to_empty_payload() {
    let (name, payload) = event_to_payload(&Event::Banner);
    assert_eq!(name, "banner");
    assert_eq!(payload, "{}");
}

#[test]
fn creating_tunnel_includes_name() {
    let event = Event::CreatingTunnel {
        name: "demo".into(),
    };
    let (name, payload) = event_to_payload(&event);
    assert_eq!(name, "creatingTunnel");
    assert_eq!(payload, "{\"name\":\"demo\"}");
}

#[test]
fn ingress_configured_serializes_protocol_and_port() {
    let event = Event::IngressConfigured {
        protocol: Protocol::Http,
        port: 8080,
    };
    let (name, payload) = event_to_payload(&event);
    assert_eq!(name, "ingressConfigured");
    let value: Value = serde_json::from_str(&payload).unwrap();
    assert_eq!(value["protocol"], "http");
    assert_eq!(value["port"], 8080);
}

#[test]
fn edge_connected_uses_camelcase_fields() {
    let event = Event::EdgeConnected {
        conn_index: 1,
        total: 4,
    };
    let (name, payload) = event_to_payload(&event);
    assert_eq!(name, "edgeConnected");
    let value: Value = serde_json::from_str(&payload).unwrap();
    assert_eq!(value["connIndex"], 1);
    assert_eq!(value["total"], 4);
}

#[test]
fn cloudflared_log_includes_level_and_line() {
    let event = Event::CloudflaredLog {
        level: LogLevel::Error,
        line: "boom".into(),
    };
    let (name, payload) = event_to_payload(&event);
    assert_eq!(name, "cloudflaredLog");
    let value: Value = serde_json::from_str(&payload).unwrap();
    assert_eq!(value["level"], "error");
    assert_eq!(value["line"], "boom");
}

#[test]
fn every_named_variant_is_covered() {
    let cases = [
        (Event::Banner, "banner"),
        (Event::ResolvingConflicts, "resolvingConflicts"),
        (Event::CloudflaredStarted, "cloudflaredStarted"),
        (Event::Restarted { attempt: 1 }, "restarted"),
        (Event::Cleaned, "cleaned"),
    ];
    for (event, expected) in cases {
        let (name, _) = event_to_payload(&event);
        assert_eq!(name, expected);
    }
}

#[test]
fn payloads_word_for_word() {
    let cases = [
        (
            Event::DnsCreated {
                full_name: "a.b".into(),
            },
            "dnsCreated",
            r#"{"fullName":"a.b"}"#,
        ),
        (
            Event::Restarting {
                reason: ShutdownReason::ChildExited,
                attempt: 2,
            },
            "restarting",
            r#"{"attempt":2,"reason":{"kind":"childExited"}}"#,
        ),
        (
            Event::Restarted { attempt: 3 },
            "restarted",
            r#"{"attempt":3}"#,
        ),
        (
            Event::RestartGivingUp {
                attempts: 5,
                last_error: "x".into(),
            },
            "restartGivingUp",
            r#"{"attempts":5,"lastError":"x"}"#,
        ),
        (
            Event::ShuttingDown {
                reason: ShutdownReason::UserRequested,
            },
            "shuttingDown",
            r#"{"reason":{"kind":"userRequested"}}"#,
        ),
        (
            Event::ShuttingDown {
                reason: ShutdownReason::Error("e".into()),
            },
            "shuttingDown",
            r#"{"reason":{"kind":"error","message":"e"}}"#,
        ),
        (
            Event::ShuttingDown {
                reason: ShutdownReason::Timeout,
            },
            "shuttingDown",
            r#"{"reason":{"debug":"Timeout","kind":"other"}}"#,
        ),
        (Event::ResolvingConflicts, "resolvingConflicts", "{}"),
        (Event::CloudflaredStarted, "cloudflaredStarted", "{}"),
        (Event::Cleaned, "cleaned", "{}"),
    ];
    for (event, name, payload) in cases {
        assert_eq!(event_to_payload(&event), (name, payload.to_string()));
        assert_eq!(event.clone(), event);
    }
}

#[test]
fn levels_and_kinds_have_names() {
    assert_eq!(log_level_str(LogLevel::Info), "info");
    assert_eq!(log_level_str(LogLevel::Warn), "warn");
    assert_eq!(log_level_str(LogLevel::Error), "error");
    assert_eq!(cf_kind_name(CloudflareErrorKind::RateLimited), "rateLimited");
    assert_eq!(cf_kind_name(CloudflareErrorKind::DnsExists), "dnsExists");
    assert_eq!(cf_kind_name(CloudflareErrorKind::AuthFailed), "authFailed");
    assert_eq!(cf_kind_name(CloudflareErrorKind::InvalidToken), "invalidToken");
    assert_eq!(cf_kind_name(CloudflareErrorKind::Other(1)), "other");
}
