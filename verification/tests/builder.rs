use cloudpipe::builder::{ResolvedZone, TunnelBuilder, ZoneChoice, DEFAULT_PORT};
use cloudpipe::client::{Zone, ZoneAccount};
use cloudpipe::error::Error;
use cloudpipe::protocol::Protocol;

#[test]
fn builder_clone_is_safe() {
    let b = TunnelBuilder::new()
        .token("t")
        .account("a")
        .zone("z")
        .domain("example.com");
    let b2 = b.clone();
    assert_eq!(b, b2);
}

#[test]
fn builder_validate_rejects_missing_credentials() {
    let err = TunnelBuilder::new().validate().unwrap_err();
    assert!(matches!(
        err,
        Error::MissingCredential("Cloudflare API token")
    ));
    TunnelBuilder::new().token("t").validate().unwrap();
}

#[test]
fn builders_keep_what_they_are_told() {
    let b = TunnelBuilder::default();
    assert_eq!(b.port, DEFAULT_PORT);
    assert_eq!(b.protocol, Protocol::Http);
    assert!(!b.auto_restart);
    let b = b
        .protocol(Protocol::Udp)
        .port(53)
        .subdomain("Dns")
        .cloudflared_path("/bin/c")
        .config_dir("/cfg")
        .github_proxy("")
        .auto_restart(true)
        .token("t");
    let launch = b.start().unwrap();
    assert_eq!(launch.token, "t");
    assert_eq!(launch.zone, ZoneChoice::Only);
    assert_eq!(launch.subdomain.as_deref(), Some("dns"));
    assert_eq!(launch.protocol, Protocol::Udp);
    assert_eq!(launch.port, 53);
    assert!(launch.auto_restart);
    assert_eq!(launch.binary_path.as_deref(), Some("/bin/c"));
    assert_eq!(launch.config_dir.as_deref(), Some("/cfg"));
    assert_eq!(launch.github_proxy.as_deref(), Some(""));
}

fn zone(name: &str) -> Zone {
    Zone {
        id: format!("z-{name}"),
        name: name.to_string(),
        account: ZoneAccount {
            id: format!("a-{name}"),
        },
    }
}

fn resolved(name: &str) -> ResolvedZone {
    ResolvedZone {
        account_id: format!("a-{name}"),
        zone_id: format!("z-{name}"),
        domain: name.to_string(),
    }
}

#[test]
fn tokens_are_needed_to_start() {
    assert_eq!(
        TunnelBuilder::new().domain("d").start().unwrap_err(),
        Error::MissingCredential("Cloudflare API token")
    );
}

#[test]
fn zones_given_in_full_are_taken_verbatim() {
    let launch = TunnelBuilder::new()
        .token("t")
        .account("a")
        .zone("z")
        .domain("d")
        .start()
        .unwrap();
    let given = ResolvedZone {
        account_id: "a".into(),
        zone_id: "z".into(),
        domain: "d".into(),
    };
    assert_eq!(launch.zone.settle(Ok(Vec::new())), Ok(given));
}

#[test]
fn partial_zones_are_refused() {
    let message = |b: TunnelBuilder| b.start().unwrap_err().message();
    let together = "account, zone and domain must be supplied together; pass .domain(\"...\") alone to auto-discover the rest";
    let t = TunnelBuilder::new().token("t");
    assert_eq!(
        message(t.clone().account("a").zone("z")),
        "account and zone provided but domain is missing — pass .domain(...)"
    );
    assert_eq!(message(t.clone().account("a")), together);
    assert_eq!(message(t.clone().zone("z")), together);
    assert_eq!(message(t.clone().account("a").domain("d")), together);
    assert_eq!(message(t.zone("z").domain("d")), together);
}

#[test]
fn zones_are_discovered() {
    let named = TunnelBuilder::new().token("t").domain("b.com").start().unwrap().zone;
    assert_eq!(named, ZoneChoice::Named("b.com".to_string()));
    assert_eq!(
        named.settle(Ok(vec![zone("a.com"), zone("b.com")])),
        Ok(resolved("b.com"))
    );
    assert_eq!(
        ZoneChoice::Named("c.com".to_string()).settle(Ok(vec![zone("a.com")])),
        Err(Error::Other(
            "domain \"c.com\" is not accessible with this token".to_string()
        ))
    );
    assert_eq!(
        ZoneChoice::Only.settle(Ok(vec![zone("a.com")])),
        Ok(resolved("a.com"))
    );
    assert_eq!(
        ZoneChoice::Only.settle(Ok(Vec::new())),
        Err(Error::Other(
            "token is valid but has access to no zones".to_string()
        ))
    );
    assert_eq!(
        ZoneChoice::Only.settle(Ok(vec![zone("a.com"), zone("b.com")])),
        Err(Error::Other(
            "token has access to 2 zones — pass .domain(\"...\"), .account(...), and .zone(...) to disambiguate"
                .to_string()
        ))
    );
    assert_eq!(
        ZoneChoice::Only.settle(Err(Error::Io("x".into()))),
        Err(Error::Io("x".into()))
    );
    assert_eq!(
        ZoneChoice::Named("a.com".into()).settle(Err(Error::AlreadyShutDown)),
        Err(Error::AlreadyShutDown)
    );
}

#[test]
fn subdomains_fall_back_to_a_generated_one() {
    let launch = TunnelBuilder::new().token("t").subdomain("").start().unwrap();
    assert_eq!(launch.subdomain, None);
    let session = launch.session(resolved("a.com"), "user-0001".to_string());
    assert_eq!(session.subdomain, "user-0001");
    assert_eq!(session.domain, "a.com");
    assert_eq!(session.account_id, "a-a.com");
    assert_eq!(session.zone_id, "z-a.com");
    let plan = session.plan().unwrap();
    assert_eq!(plan.full_name, "user-0001.a.com");
    let launch = TunnelBuilder::new().token("t").subdomain("-BAD").start().unwrap();
    let session = launch.session(resolved("a.com"), "user-0001".to_string());
    assert_eq!(session.subdomain, "-bad");
    match session.plan().unwrap_err() {
        Error::InvalidSubdomain(message) => assert!(message.starts_with("\"-bad\": ")),
        other => panic!("wrong error: {other:?}"),
    }
}
