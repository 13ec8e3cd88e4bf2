use cloudpipe::protocol::{
    local_url, random_subdomain, subdomain_from_seed, validate_subdomain, InvalidProtocol,
    InvalidSubdomain, Protocol,
};

const ALL: [Protocol; 5] = [
    Protocol::Http,
    Protocol::Https,
    Protocol::Tcp,
    Protocol::Udp,
    Protocol::Ssh,
];

#[test]
fn protocol_protocol_round_trips() {
    for proto in ALL {
        assert_eq!(Protocol::parse(proto.as_str()).unwrap(), proto);
    }
}

#[test]
fn tunnel_protocol_round_trips() {
    for proto in [
        Protocol::Http,
        Protocol::Https,
        Protocol::Tcp,
        Protocol::Udp,
        Protocol::Ssh,
    ] {
        assert_eq!(Protocol::parse(proto.as_str()).unwrap(), proto);
    }
}

#[test]
fn protocol_protocol_parse_is_case_insensitive() {
    assert_eq!(Protocol::parse("HTTP").unwrap(), Protocol::Http);
    assert_eq!(Protocol::parse("Tcp").unwrap(), Protocol::Tcp);
}

#[test]
fn tunnel_protocol_parse_is_case_insensitive() {
    assert_eq!(Protocol::parse("HTTP").unwrap(), Protocol::Http);
    assert_eq!(Protocol::parse("Tcp").unwrap(), Protocol::Tcp);
}

#[test]
fn protocol_protocol_parse_rejects_unknown() {
    assert!(Protocol::parse("ftp").is_err());
    assert!(Protocol::parse("").is_err());
}

#[test]
fn tunnel_protocol_parse_rejects_unknown() {
    assert!(Protocol::parse("ftp").is_err());
    assert!(Protocol::parse("").is_err());
}

#[test]
fn protocol_protocol_local_service() {
    assert_eq!(Protocol::Http.local_service(8080), "http://localhost:8080");
    assert_eq!(Protocol::Https.local_service(8443), "https://localhost:8443");
    assert_eq!(Protocol::Tcp.local_service(22), "tcp://localhost:22");
    assert_eq!(Protocol::Udp.local_service(5353), "udp://localhost:5353");
    assert_eq!(Protocol::Ssh.local_service(22), "ssh://localhost:22");
}

#[test]
fn tunnel_protocol_local_service() {
    assert_eq!(Protocol::Http.local_service(8080), "http://localhost:8080");
    assert_eq!(Protocol::Https.local_service(8443), "https://localhost:8443");
    assert_eq!(Protocol::Tcp.local_service(22), "tcp://localhost:22");
    assert_eq!(Protocol::Udp.local_service(5353), "udp://localhost:5353");
    assert_eq!(Protocol::Ssh.local_service(22), "ssh://localhost:22");
}

#[test]
fn protocol_subdomain_validation() {
    assert!(validate_subdomain("myapp").is_ok());
    assert!(validate_subdomain("my-app-2").is_ok());
    assert!(validate_subdomain("MyApp").is_err());
    assert!(validate_subdomain("-myapp").is_err());
    assert!(validate_subdomain("myapp-").is_err());
    assert!(validate_subdomain("ab").is_err());
    assert!(validate_subdomain(&"a".repeat(64)).is_err());
    assert!(validate_subdomain("my app").is_err());
}

#[test]
fn tunnel_subdomain_validation() {
    assert!(validate_subdomain("myapp").is_ok());
    assert!(validate_subdomain("my-app-2").is_ok());
    assert!(validate_subdomain("MyApp").is_err());
    assert!(validate_subdomain("-myapp").is_err());
    assert!(validate_subdomain("myapp-").is_err());
    assert!(validate_subdomain("ab").is_err());
    assert!(validate_subdomain(&"a".repeat(64)).is_err());
    assert!(validate_subdomain("my app").is_err());
}

#[test]
fn invalid_protocol_keeps_token() {
    let err = Protocol::parse("rdp").unwrap_err();
    assert_eq!(err.0, "rdp");
}

#[test]
fn invalid_protocol_says_what_is_supported() {
    let err = InvalidProtocol("RDP".to_string());
    assert_eq!(
        err.message(),
        "unknown protocol \"RDP\" — supported: http, https, tcp, udp, ssh"
    );
    assert_eq!(err.clone(), err);
}

#[test]
fn protocols_parse_from_str() {
    assert_eq!("ssh".parse::<Protocol>().unwrap(), Protocol::Ssh);
    assert!("gopher".parse::<Protocol>().is_err());
}

#[test]
fn random_subdomain_shape() {
    for _ in 0..20 {
        let sub = random_subdomain();
        assert!(sub.starts_with("user-"), "got {sub}");
        assert!(validate_subdomain(&sub).is_ok(), "invalid {sub}");
    }
}

#[test]
fn random_subdomains_differ() {
    let names: Vec<String> = (0..40).map(|_| random_subdomain()).collect();
    assert!(names.iter().any(|n| *n != names[0]));
}

#[test]
fn seeds_make_four_digits() {
    assert_eq!(subdomain_from_seed(0), "user-0000");
    assert_eq!(subdomain_from_seed(7), "user-0007");
    assert_eq!(subdomain_from_seed(1234), "user-1234");
    assert_eq!(subdomain_from_seed(4294967295), "user-7295");
    for seed in [0u32, 9, 10, 99, 100, 999, 1000, 9999, 10000, 123456789] {
        assert_eq!(
            subdomain_from_seed(seed),
            format!("user-{:04}", seed % 10000)
        );
        assert!(validate_subdomain(&subdomain_from_seed(seed)).is_ok());
    }
}

#[test]
fn local_url_builds_expected_value() {
    assert_eq!(local_url("http", 8080), "http://localhost:8080");
    assert_eq!(local_url("https", 8443), "https://localhost:8443");
}

#[test]
fn label_bounds_are_exact() {
    assert!(validate_subdomain("abc").is_ok());
    assert!(validate_subdomain(&"a".repeat(63)).is_ok());
    assert!(validate_subdomain("a.c").is_err());
    assert!(validate_subdomain("ärger").is_err());
    assert!(validate_subdomain("").is_err());
    let short = validate_subdomain("ab").unwrap_err();
    assert_eq!(short.value, "ab");
    let odd = validate_subdomain("My_App").unwrap_err();
    assert_ne!(short.reason, odd.reason);
}

#[test]
fn invalid_subdomains_become_errors() {
    let fault = InvalidSubdomain::new("x", "too short");
    assert_eq!(fault.value, "x");
    assert_eq!(fault.reason, "too short");
    assert_eq!(
        fault.clone().into_error().message(),
        "invalid subdomain: \"x\": too short"
    );
    assert!(fault.message().contains("too short"));
}
