use cloudpipe::builder::DEFAULT_PORT;
use cloudpipe::cli::{Cli, Command};
use cloudpipe::error::Error;
use cloudpipe::protocol::Protocol;

fn cli(first: Option<&str>, port: Option<u16>, subdomain: Option<&str>) -> Cli {
    Cli {
        first: first.map(String::from),
        port,
        subdomain: subdomain.map(String::from),
        command: None,
    }
}

#[test]
fn cli_ngrok_style_https_port() {
    let args = cli(Some("https"), Some(8443), None).to_tunnel_args().unwrap();
    assert_eq!(args.protocol, Protocol::Https);
    assert_eq!(args.port, 8443);
    assert_eq!(args.subdomain, None);
}

#[test]
fn ngrok_style_https_port() {
    let args = cli(Some("https"), Some(8443), None).to_tunnel_args().unwrap();
    assert_eq!(args.protocol.as_str(), "https");
    assert_eq!(args.port, 8443);
    assert_eq!(args.subdomain, None);
}

#[test]
fn cli_legacy_style_bare_port() {
    let args = cli(Some("3000"), None, None).to_tunnel_args().unwrap();
    assert_eq!(args.protocol, Protocol::Http);
    assert_eq!(args.port, 3000);
}

#[test]
fn legacy_style_bare_port() {
    let args = cli(Some("3000"), None, None).to_tunnel_args().unwrap();
    assert_eq!(args.protocol.as_str(), "http");
    assert_eq!(args.port, 3000);
}

#[test]
fn cli_default_port_when_missing() {
    let args = cli(None, None, None).to_tunnel_args().unwrap();
    assert_eq!(args.port, DEFAULT_PORT);
}

#[test]
fn default_port_when_missing() {
    let args = cli(None, None, None).to_tunnel_args().unwrap();
    assert_eq!(args.port, 8080);
}

#[test]
fn cli_subdomain_flag() {
    let args = cli(Some("http"), Some(8080), Some("myapp")).to_tunnel_args().unwrap();
    assert_eq!(args.subdomain.as_deref(), Some("myapp"));
}

#[test]
fn subdomain_flag() {
    let args = cli(Some("http"), Some(8080), Some("myapp")).to_tunnel_args().unwrap();
    assert_eq!(args.subdomain.as_deref(), Some("myapp"));
    assert_eq!(args.clone(), args);
}

#[test]
fn unknown_first_argument_is_rejected() {
    assert!(cli(Some("bogus"), None, None).to_tunnel_args().is_err());
    assert_eq!(
        cli(Some("bogus"), None, None).to_tunnel_args().unwrap_err(),
        Error::Other(
            "unexpected argument \"bogus\": expected a protocol (http, https, tcp, udp, ssh) or a port"
                .to_string()
        )
    );
}

#[test]
fn all_protocols_are_taken() {
    for p in [
        Protocol::Http,
        Protocol::Https,
        Protocol::Tcp,
        Protocol::Udp,
        Protocol::Ssh,
    ] {
        let args = cli(Some(p.as_str()), None, None).to_tunnel_args().unwrap();
        assert_eq!(args.protocol, p);
        assert_eq!(args.port, 8080);
    }
    assert!(cli(Some("HTTP"), None, None).to_tunnel_args().is_err());
}

#[test]
fn the_second_port_wins() {
    let args = cli(Some("3000"), Some(4000), None).to_tunnel_args().unwrap();
    assert_eq!(args.port, 4000);
    assert!(cli(Some("65536"), None, None).to_tunnel_args().is_err());
}

#[test]
fn subcommands_are_not_tunnels() {
    let mut other = cli(None, None, None);
    other.command = Some(Command::Cleanup);
    assert_eq!(
        other.to_tunnel_args().unwrap_err(),
        Error::Other("subcommand handled separately".to_string())
    );
}

#[test]
fn bare_ports_are_taken() {
    for port in [0u16, 1, 80, 9999, 65535] {
        let args = cli(Some(&port.to_string()), None, None).to_tunnel_args().unwrap();
        assert_eq!(args.port, port);
        assert_eq!(args.protocol, Protocol::Http);
    }
}
