use cloudpipe::cleanup::{cleanup, skip_notice, DeadStatus, Sweep, SweepStep};
use cloudpipe::client::{Answer, ApiRequest, CloudflareApi, DnsRecord, Reply, Tunnel};
use cloudpipe::config::Config;
use cloudpipe::error::Error;
use cloudpipe::tunnel::run_cleanup;

fn tunnel(id: &str) -> Tunnel {
    Tunnel {
        id: id.into(),
        name: format!("name-{id}"),
        ..Default::default()
    }
}

fn record(id: &str, name: &str, content: &str) -> DnsRecord {
    DnsRecord {
        id: id.into(),
        name: name.into(),
        content: content.into(),
    }
}

fn fail(request: &ApiRequest) -> Reply {
    let e = Error::Io("refused".into());
    match request.answer {
        Answer::Tunnels => Reply::Tunnels(Err(e)),
        Answer::Tunnel => Reply::Tunnel(Err(e)),
        Answer::Records => Reply::Records(Err(e)),
        _ => Reply::Nothing(Err(e)),
    }
}

/// Cloudflare with one dead tunnel, its record, and three CNAME records, one of
/// which points at a tunnel that exists.
fn grant(request: &ApiRequest) -> Reply {
    let path = request.url.as_str();
    match request.answer {
        Answer::Tunnels => Reply::Tunnels(Ok(if path.ends_with("status=inactive") {
            vec![tunnel("t1"), tunnel("t2")]
        } else {
            vec![]
        })),
        Answer::Records if path.contains("type=CNAME") => Reply::Records(Ok(vec![
            record("c1", "one.d", "gone.cfargotunnel.com"),
            record("c2", "two.d", "elsewhere.org"),
            record("c3", "three.d", "live.cfargotunnel.com"),
            record("c4", "four.d", "gone2.cfargotunnel.com"),
        ])),
        Answer::Records => Reply::Records(Ok(vec![record("r1", "name-t1.d.org", "x")])),
        Answer::Tunnel if path.ends_with("/live") => Reply::Tunnel(Ok(tunnel("live"))),
        Answer::Tunnel => fail(request),
        _ => Reply::Nothing(Ok(())),
    }
}

fn sweep(strict: bool, answer: impl Fn(&ApiRequest) -> Reply) -> (Sweep, Vec<String>) {
    let api = CloudflareApi::with_base("t", "");
    let mut sweep = cleanup("acc", "zone", "d.org", strict);
    let mut log = Vec::new();
    while let Some(request) = sweep.request(&api) {
        log.push(format!("{:?} {}", request.method, request.url));
        sweep = sweep.advance(answer(&request));
    }
    (sweep, log)
}

#[test]
fn dead_things_are_removed_and_counted() {
    let (done, log) = sweep(false, grant);
    assert_eq!(done.step, SweepStep::Done);
    assert_eq!(done.removed, 5);
    assert_eq!(
        log,
        vec![
            "Get /accounts/acc/tunnels?is_deleted=false&status=down",
            "Get /accounts/acc/tunnels?is_deleted=false&status=inactive",
            "Get /zones/zone/dns_records?name=name-t1.d.org",
            "Delete /zones/zone/dns_records/r1",
            "Delete /accounts/acc/tunnels/t1/connections",
            "Delete /accounts/acc/tunnels/t1",
            "Get /zones/zone/dns_records?name=name-t2.d.org",
            "Delete /accounts/acc/tunnels/t2/connections",
            "Delete /accounts/acc/tunnels/t2",
            "Get /accounts/acc/tunnels?is_deleted=false&status=degraded",
            "Get /zones/zone/dns_records?type=CNAME&per_page=100",
            "Get /accounts/acc/tunnels/gone",
            "Delete /zones/zone/dns_records/c1",
            "Get /accounts/acc/tunnels/live",
            "Get /accounts/acc/tunnels/gone2",
            "Delete /zones/zone/dns_records/c4",
        ]
    );
}

#[test]
fn statuses_that_cannot_be_listed_are_skipped() {
    let (done, log) = sweep(false, |request| match request.answer {
        Answer::Tunnels => fail(request),
        Answer::Records => Reply::Records(Ok(vec![])),
        _ => grant(request),
    });
    assert_eq!(done.step, SweepStep::Done);
    assert_eq!(done.removed, 0);
    assert_eq!(log.len(), 4);
}

#[test]
fn tunnels_that_cannot_be_deleted_end_the_sweep() {
    let (done, _) = sweep(false, |request| {
        if request.url.ends_with("/tunnels/t1") {
            fail(request)
        } else {
            grant(request)
        }
    });
    assert_eq!(done.step, SweepStep::Failed(Error::Io("refused".into())));
    assert_eq!(done.removed, 1);
}

#[test]
fn records_that_cannot_be_listed_end_the_sweep() {
    let (done, _) = sweep(false, |request| {
        if request.url.contains("type=CNAME") {
            fail(request)
        } else {
            grant(request)
        }
    });
    assert_eq!(done.step, SweepStep::Failed(Error::Io("refused".into())));
    assert_eq!(done.removed, 3);
}

#[test]
fn what_stays_is_not_counted() {
    let stubborn = |request: &ApiRequest| {
        if request.url.contains("/dns_records/") {
            fail(request)
        } else {
            grant(request)
        }
    };
    let (done, log) = sweep(false, stubborn);
    assert_eq!(done.step, SweepStep::Done);
    assert_eq!(done.removed, 2);
    assert_eq!(log.len(), 16);
    let (done, _) = sweep(true, stubborn);
    assert_eq!(done.step, SweepStep::Failed(Error::Io("refused".into())));
    assert_eq!(done.removed, 2);
}

#[test]
fn removals_are_told() {
    let mut at = cleanup("acc", "zone", "d.org", false);
    assert!(at.notice().is_none());
    at.step = SweepStep::FindRecord {
        status: DeadStatus::Down,
        tunnels: vec![tunnel("t1")],
        at: 0,
    };
    assert_eq!(
        at.notice().unwrap().spans[0].text,
        "  Removing dead tunnel \"name-t1\" (down)..."
    );
    at.step = SweepStep::DeleteOrphan {
        records: vec![record("c1", "one.d", "gone.cfargotunnel.com")],
        at: 0,
    };
    assert_eq!(
        at.notice().unwrap().spans[0].text,
        "  Removing orphaned DNS record one.d..."
    );
    let line = skip_notice(&Error::AlreadyShutDown);
    let text: Vec<&str> = line.spans.iter().map(|s| s.text.as_str()).collect();
    assert_eq!(text, vec!["  ", "Skipping status scan:", " tunnel already shut down"]);
}

#[test]
fn the_command_needs_credentials() {
    assert!(run_cleanup(&Config::default(), None).is_err());
    let config = Config {
        token: Some("t".into()),
        account_id: Some("a".into()),
        zone_id: Some("z".into()),
        domain: Some("d".into()),
    };
    let (token, sweep) = run_cleanup(&config, None).unwrap();
    assert_eq!(token, "t");
    assert!(sweep.strict);
    assert_eq!(sweep.account_id, "a");
    assert_eq!(sweep.zone_id, "z");
    assert_eq!(sweep.domain, "d");
}
