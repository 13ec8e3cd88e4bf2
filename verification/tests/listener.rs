use cloudpipe::codes::{parse_error_code, Status};
use cloudpipe::event::ShutdownReason;
use cloudpipe::listener::{port_u16, ConnectOptions, Listener};
use cloudpipe::live::LiveTunnel;
use cloudpipe::plan::Plan;
use cloudpipe::protocol::Protocol;
use cloudpipe::session::ChildPoll;

fn options() -> ConnectOptions {
    ConnectOptions {
        token: "t".into(),
        domain: None,
        protocol: None,
        port: None,
        subdomain: None,
        auto_restart: None,
        cloudflared_path: None,
        github_proxy: None,
    }
}

#[test]
fn ports_are_checked() {
    assert_eq!(port_u16(None), Ok(8080));
    assert_eq!(port_u16(Some(0)), Ok(0));
    assert_eq!(port_u16(Some(65535)), Ok(65535));
    assert_eq!(port_u16(Some(65536)), Err("port 65536 is out of range".to_string()));
}

#[test]
fn defaults_are_those_of_the_builder() {
    let b = Listener::start(options()).unwrap();
    assert_eq!(b.token.as_deref(), Some("t"));
    assert_eq!(b.protocol, Protocol::Http);
    assert_eq!(b.port, 8080);
    assert_eq!(b.domain, None);
    assert_eq!(b.subdomain, None);
    assert_eq!(b.binary_path, None);
    assert_eq!(b.github_proxy, None);
    assert!(!b.auto_restart);
}

#[test]
fn empty_options_count_as_none() {
    let b = Listener::start(ConnectOptions {
        domain: Some(String::new()),
        subdomain: Some(String::new()),
        cloudflared_path: Some(String::new()),
        github_proxy: Some(String::new()),
        ..options()
    })
    .unwrap();
    assert_eq!(b.domain, None);
    assert_eq!(b.subdomain, None);
    assert_eq!(b.binary_path, None);
    assert_eq!(b.github_proxy.as_deref(), Some(""));
}

#[test]
fn options_are_taken_over() {
    let b = Listener::start(ConnectOptions {
        domain: Some("d.org".into()),
        protocol: Some("TCP".into()),
        port: Some(22),
        subdomain: Some("Box".into()),
        auto_restart: Some(true),
        cloudflared_path: Some("/c".into()),
        github_proxy: Some("https://m".into()),
        ..options()
    })
    .unwrap();
    assert_eq!(b.domain.as_deref(), Some("d.org"));
    assert_eq!(b.protocol, Protocol::Tcp);
    assert_eq!(b.port, 22);
    assert_eq!(b.subdomain.as_deref(), Some("Box"));
    assert!(b.auto_restart);
    assert_eq!(b.binary_path.as_deref(), Some("/c"));
    assert_eq!(b.github_proxy.as_deref(), Some("https://m"));
}

#[test]
fn bad_options_are_invalid_arguments() {
    let bad = ConnectOptions {
        protocol: Some("ftp".into()),
        port: Some(70000),
        ..options()
    };
    assert_eq!(
        bad.protocol_enum(),
        Err("invalid protocol — supported: http, https, tcp, udp, ssh")
    );
    let e = Listener::start(bad).unwrap_err();
    assert_eq!(e.status, Status::InvalidArg);
    assert_eq!(e.reason, "invalid protocol — supported: http, https, tcp, udp, ssh");
    let e = Listener::start(ConnectOptions {
        port: Some(70000),
        ..options()
    })
    .unwrap_err();
    assert_eq!(e.status, Status::InvalidArg);
    assert_eq!(e.reason, "port 70000 is out of range");
}

#[test]
fn callbacks_are_called_in_order() {
    let mut listener = Listener::new("https://a.b", "a.b", "a");
    assert_eq!(listener.url(), "https://a.b");
    assert_eq!(listener.full_name(), "a.b");
    assert_eq!(listener.subdomain(), "a");
    listener.on("cleaned", 3);
    listener.on("banner", 1);
    listener.on("cleaned", 2);
    listener.on("cleaned", 3);
    assert_eq!(listener.callbacks_for("cleaned"), vec![3, 2, 3]);
    assert_eq!(listener.callbacks_for("banner"), vec![1]);
    assert_eq!(listener.callbacks_for("Banner"), Vec::<u64>::new());
}

fn tunnel() -> LiveTunnel {
    let plan = Plan {
        account_id: "acc".into(),
        zone_id: "zone".into(),
        subdomain: "a".into(),
        full_name: "a.b".into(),
        protocol: Protocol::Http,
        port: 80,
        auto_restart: true,
    };
    LiveTunnel::start(&plan, "t1".into())
}

#[test]
fn listeners_are_closed_once() {
    let mut live = tunnel();
    let mut listener = Listener::new("https://a.b", "a.b", "a");
    assert!(listener.close(&mut live).is_ok());
    assert!(live.handle.stopped);
    assert_eq!(
        live.look(ChildPoll::Running),
        Some(ShutdownReason::UserRequested)
    );
    let e = listener.close(&mut live).unwrap_err();
    assert_eq!(e.status, Status::GenericFailure);
    assert_eq!(e.reason, "[ALREADY_SHUT_DOWN] tunnel already shut down");
    assert_eq!(
        parse_error_code(&e.reason).as_deref(),
        Some("ALREADY_SHUT_DOWN")
    );
}

#[test]
fn a_tunnel_that_was_stopped_cannot_be_closed() {
    let mut live = tunnel();
    assert_eq!(live.stop(), Ok(()));
    let mut listener = Listener::new("https://a.b", "a.b", "a");
    let e = listener.close(&mut live).unwrap_err();
    assert_eq!(e.reason, "[ALREADY_SHUT_DOWN] tunnel already shut down");
    assert!(listener.closed);
}
