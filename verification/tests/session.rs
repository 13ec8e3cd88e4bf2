use std::collections::HashMap;

use cloudpipe::bootstrap::{bootstrap_session, cname_target, ingress_of, BootFailure, BootStep};
use cloudpipe::client::{
    decode, Answer, ApiRequest, CfError, CfResponse, CloudflareApi, DnsRecord, IngressEntry,
    Method, Reply, TokenStatus, Tunnel,
};
use cloudpipe::config::{load_ready_config, Config};
use cloudpipe::conflicts::{resolve_conflicts, ConflictStep};
use cloudpipe::error::{ApiError, CloudflareErrorKind, Error};
use cloudpipe::event::{Event, ShutdownReason};
use cloudpipe::handle::TunnelHandle;
use cloudpipe::live::LiveTunnel;
use cloudpipe::plan::{Plan, SessionConfig};
use cloudpipe::protocol::Protocol;
use cloudpipe::release::{ReleaseStep, SessionState};
use cloudpipe::session::{
    run_until_exit, ChildPoll, Phase, Session, Signal, MAX_RESTART_ATTEMPTS, POLL_INTERVAL,
    RESTART_BACKOFF,
};
use cloudpipe::tunnel::{
    poll, run_named, run_tunnel, validate_subdomain, RunFailure, TunnelOptions, TUNNEL_TIMEOUT,
};
use serde_json::Value;

/// The part of Cloudflare that a session talks to.
#[derive(Default)]
struct Mock {
    tunnels: HashMap<String, String>,
    records: HashMap<String, String>,
    deleted_tunnels: Vec<String>,
    deleted_records: Vec<String>,
    stale: Vec<Tunnel>,
    refuse: Vec<&'static str>,
    log: Vec<String>,
}

fn refused(message: &str) -> Error {
    Error::Cloudflare(ApiError::Api {
        code: Some(7),
        message: message.to_string(),
        kind: CloudflareErrorKind::Other(7),
    })
}

impl Mock {
    fn answer(&mut self, request: &ApiRequest) -> Reply {
        assert_eq!(request.token, "test-token");
        let path = request.url.strip_prefix("http://mock").unwrap().to_string();
        let verb = match request.method {
            Method::Get => "GET",
            Method::Post => "POST",
            Method::Put => "PUT",
            Method::Delete => "DELETE",
        };
        let line = format!("{verb} {path}");
        self.log.push(line.clone());
        if let Some(hit) = self.refuse.iter().find(|p| line.contains(**p)) {
            let e = refused(hit);
            return match request.answer {
                Answer::Tunnels => Reply::Tunnels(Err(e)),
                Answer::Tunnel => Reply::Tunnel(Err(e)),
                Answer::Records => Reply::Records(Err(e)),
                Answer::Record => Reply::Record(Err(e)),
                _ => Reply::Nothing(Err(e)),
            };
        }
        let body: Value = request
            .body
            .as_ref()
            .map(|b| serde_json::from_str(b).unwrap())
            .unwrap_or(Value::Null);
        let last = path.rsplit('/').next().unwrap_or("").to_string();
        match (request.answer, verb) {
            (Answer::TokenStatus, _) => Reply::TokenStatus(Ok(TokenStatus {
                id: "tok".into(),
                status: "active".into(),
            })),
            (Answer::Tunnel, "POST") => {
                let name = body["name"].as_str().unwrap().to_string();
                let id = format!("tun-{name}");
                self.tunnels.insert(name.clone(), id.clone());
                Reply::Tunnel(Ok(Tunnel {
                    id,
                    name,
                    status: "healthy".into(),
                    token: Some("fake-token".into()),
                    created_at: None,
                }))
            }
            (Answer::Tunnels, _) => Reply::Tunnels(Ok(self.stale.clone())),
            (Answer::Records, _) => Reply::Records(Ok(self
                .records
                .iter()
                .map(|(name, id)| DnsRecord {
                    id: id.clone(),
                    name: name.clone(),
                    content: "tun-x.cfargotunnel.com".into(),
                })
                .collect())),
            (Answer::Record, _) => {
                let name = body["name"].as_str().unwrap().to_string();
                let id = format!("rec-{}", self.records.len());
                self.records.insert(name.clone(), id.clone());
                Reply::Record(Ok(DnsRecord {
                    id,
                    name,
                    content: body["content"].as_str().unwrap().to_string(),
                }))
            }
            (Answer::Nothing, "DELETE") => {
                if path.contains("/dns_records/") {
                    self.records.retain(|_, id| *id != last);
                    self.deleted_records.push(last);
                } else if !path.ends_with("/connections") {
                    self.tunnels.retain(|_, id| *id != last);
                    self.deleted_tunnels.push(last);
                }
                Reply::Nothing(Ok(()))
            }
            (Answer::Nothing, _) => Reply::Nothing(Ok(())),
            other => panic!("unmocked {other:?}"),
        }
    }
}

fn api() -> CloudflareApi {
    CloudflareApi::with_base("test-token", "http://mock")
}

fn plan_for(auto_restart: bool) -> Plan {
    SessionConfig {
        account_id: "acc-1".into(),
        zone_id: "zone-1".into(),
        domain: "example.com".into(),
        protocol: Protocol::Http,
        port: 8080,
        subdomain: "myapp".into(),
        auto_restart,
    }
    .plan()
    .unwrap()
}

/// Runs a setup against the mock; `stderr` is what spawning gives.
fn boot(
    mock: &mut Mock,
    plan: &Plan,
    is_initial: bool,
    spawn: Result<bool, Error>,
) -> (BootStep, Vec<Event>) {
    let api = api();
    let mut step = bootstrap_session();
    let mut events = step.announce(plan, is_initial);
    let mut spawn = Some(spawn);
    loop {
        if let Some(request) = step.request(plan, &api) {
            let reply = mock.answer(&request);
            step = step.advance(plan, reply);
        } else if let Some(token) = step.spawn_token() {
            assert_eq!(token, "fake-token");
            step = step.spawned(spawn.take().unwrap());
        } else {
            return (step, events);
        }
        events.extend(step.announce(plan, is_initial));
    }
}

/// Takes the session to the end of a release.
fn drain(mock: &mut Mock, session: &mut Session) -> Vec<Event> {
    let api = api();
    let mut events = Vec::new();
    while let Some(request) = session.request(&api) {
        let reply = mock.answer(&request);
        events.extend(session.step(Signal::Answered(reply)));
    }
    events
}

#[test]
fn full_lifecycle_with_mock_api() {
    let mut mock = Mock::default();
    let api = api();

    let status = match mock.answer(&api.verify_token()) {
        Reply::TokenStatus(Ok(status)) => status,
        other => panic!("{other:?}"),
    };
    assert_eq!(status.status, "active");

    let tunnel = match mock.answer(&api.create_tunnel("acc-1", "myapp")) {
        Reply::Tunnel(Ok(tunnel)) => tunnel,
        other => panic!("{other:?}"),
    };
    assert_eq!(tunnel.name, "myapp");
    assert_eq!(mock.tunnels.get("myapp"), Some(&tunnel.id));

    let ingress = vec![
        IngressEntry {
            hostname: Some("myapp.example.com".into()),
            service: "http://localhost:8080".into(),
        },
        IngressEntry {
            hostname: None,
            service: "http_status:404".into(),
        },
    ];
    assert_eq!(ingress_of(&plan_for(false)), ingress);
    assert_eq!(
        mock.answer(&api.set_tunnel_ingress("acc-1", &tunnel.id, &ingress)),
        Reply::Nothing(Ok(()))
    );

    let target = format!("{}.cfargotunnel.com", tunnel.id);
    assert_eq!(cname_target(&tunnel.id), target);
    let rec = match mock.answer(&api.create_dns_record("zone-1", "myapp.example.com", &target)) {
        Reply::Record(Ok(rec)) => rec,
        other => panic!("{other:?}"),
    };
    assert_eq!(rec.name, "myapp.example.com");
    assert_eq!(rec.content, target);
    assert!(mock.records.contains_key("myapp.example.com"));

    let found = match mock.answer(&api.find_dns_record("zone-1", "myapp.example.com")) {
        Reply::Records(Ok(records)) => {
            cloudpipe::client::pick_record(&records, "myapp.example.com")
        }
        other => panic!("{other:?}"),
    };
    assert!(found.is_some());

    mock.answer(&api.delete_dns_record("zone-1", &rec.id));
    mock.answer(&api.cleanup_connections("acc-1", &tunnel.id));
    mock.answer(&api.delete_tunnel("acc-1", &tunnel.id));
    assert!(mock.deleted_records.contains(&rec.id));
    assert!(mock.deleted_tunnels.contains(&tunnel.id));

    cloudpipe::builder::TunnelBuilder::new()
        .token("test-token")
        .account("acc-1")
        .zone("zone-1")
        .domain("example.com")
        .protocol(Protocol::Http)
        .port(8080)
        .subdomain("unreachable-in-this-test")
        .cloudflared_path("/tmp/cloudflared")
        .validate()
        .unwrap();
}

#[test]
fn a_setup_announces_itself_and_makes_its_calls() {
    let mut mock = Mock::default();
    let plan = plan_for(false);
    let (step, events) = boot(&mut mock, &plan, true, Ok(true));
    assert_eq!(
        step,
        BootStep::Running {
            tunnel_id: "tun-myapp".into()
        }
    );
    assert_eq!(
        events,
        vec![
            Event::Banner,
            Event::ResolvingConflicts,
            Event::CreatingTunnel {
                name: "myapp".into()
            },
            Event::IngressConfigured {
                protocol: Protocol::Http,
                port: 8080
            },
            Event::DnsCreated {
                full_name: "myapp.example.com".into()
            },
            Event::CloudflaredStarted,
        ]
    );
    assert_eq!(
        mock.log,
        vec![
            "GET /accounts/acc-1/tunnels?name=myapp&is_deleted=false",
            "GET /zones/zone-1/dns_records?name=myapp.example.com",
            "POST /accounts/acc-1/tunnels",
            "PUT /accounts/acc-1/cfd_tunnel/tun-myapp/configurations",
            "POST /zones/zone-1/dns_records",
        ]
    );
    let (step, events) = boot(&mut Mock::default(), &plan, false, Ok(true));
    assert!(matches!(step, BootStep::Running { .. }));
    assert_eq!(events, vec![]);
}

#[test]
fn failed_setups_are_undone() {
    let plan = plan_for(false);
    for (hit, told) in [("cfd_tunnel", 3), ("POST /zones", 4)] {
        let mut mock = Mock::default();
        mock.refuse.push(hit);
        let (step, events) = boot(&mut mock, &plan, true, Ok(true));
        let failure = match hit {
            "cfd_tunnel" => BootFailure::Ingress(refused(hit)),
            _ => BootFailure::Record(refused(hit)),
        };
        assert_eq!(step, BootStep::Failed(failure));
        assert_eq!(mock.deleted_tunnels, vec!["tun-myapp"]);
        assert_eq!(events.len(), told);
    }
    let mut mock = Mock::default();
    mock.refuse.push("POST /accounts");
    let (step, events) = boot(&mut mock, &plan, true, Ok(true));
    assert_eq!(
        step,
        BootStep::Failed(BootFailure::Create(refused("POST /accounts")))
    );
    assert_eq!(mock.deleted_tunnels, Vec::<String>::new());
    assert_eq!(events.len(), 3);
}

#[test]
fn setups_can_fail_at_the_process() {
    let plan = plan_for(false);
    let (step, events) = boot(&mut Mock::default(), &plan, true, Ok(false));
    assert_eq!(step, BootStep::Failed(BootFailure::NoStderr));
    assert_eq!(events.last(), Some(&Event::CloudflaredStarted));
    let (step, events) = boot(
        &mut Mock::default(),
        &plan,
        true,
        Err(Error::Io("exec".into())),
    );
    assert_eq!(
        step,
        BootStep::Failed(BootFailure::Spawn(Error::Io("exec".into())))
    );
    assert_eq!(events.len(), 5);
}

#[test]
fn tunnels_need_a_token() {
    let plan = plan_for(false);
    let api = api();
    let mut step = BootStep::Creating;
    assert!(step.request(&plan, &api).is_some());
    step = step.advance(
        &plan,
        Reply::Tunnel(Ok(Tunnel {
            id: "t".into(),
            name: "myapp".into(),
            status: String::new(),
            token: None,
            created_at: None,
        })),
    );
    assert_eq!(step, BootStep::Failed(BootFailure::NoToken));
}

#[test]
fn failures_have_their_errors() {
    assert_eq!(
        BootFailure::InUse.into_error("myapp"),
        Error::SubdomainInUse("myapp".into())
    );
    assert_eq!(
        BootFailure::NoToken.into_error("myapp"),
        Error::Other("Cloudflare returned a tunnel without a token".into())
    );
    assert_eq!(
        BootFailure::NoStderr.into_error("myapp"),
        Error::Other("cloudflared stderr not piped".into())
    );
    for failure in [
        BootFailure::Conflict(refused("x")),
        BootFailure::Create(refused("x")),
        BootFailure::Ingress(refused("x")),
        BootFailure::Record(refused("x")),
        BootFailure::Spawn(refused("x")),
    ] {
        assert_eq!(failure.into_error("myapp"), refused("x"));
    }
}

#[test]
fn the_command_line_has_its_own_words() {
    let shown = |failure: BootFailure| RunFailure::Setup(failure).message("myapp");
    let why = || Error::Other("Cloudflare API error [7]: no".into());
    assert_eq!(
        RunFailure::Binary(why()).message(""),
        "preparing cloudflared binary"
    );
    assert_eq!(
        shown(BootFailure::InUse),
        "subdomain \"myapp\" is currently in use by an active tunnel — choose another name"
    );
    assert_eq!(
        shown(BootFailure::Conflict(why())),
        "Cloudflare API error [7]: no"
    );
    assert_eq!(
        shown(BootFailure::Create(why())),
        "creating Cloudflare tunnel"
    );
    assert_eq!(
        shown(BootFailure::NoToken),
        "Cloudflare returned a tunnel without a token"
    );
    assert_eq!(
        shown(BootFailure::Ingress(why())),
        "setting tunnel ingress: Cloudflare API error [7]: no"
    );
    assert_eq!(
        shown(BootFailure::Record(why())),
        "creating DNS record: Cloudflare API error [7]: no"
    );
    assert_eq!(shown(BootFailure::Spawn(why())), "starting cloudflared");
    assert_eq!(shown(BootFailure::NoStderr), "cloudflared stderr not piped");
}

fn tunnel(id: &str, status: &str) -> Tunnel {
    Tunnel {
        id: id.into(),
        name: "myapp".into(),
        status: status.into(),
        token: None,
        created_at: None,
    }
}

#[test]
fn live_tunnels_are_left_alone() {
    let mut mock = Mock::default();
    mock.stale.push(tunnel("live", "healthy"));
    let (step, _) = boot(&mut mock, &plan_for(false), true, Ok(true));
    assert_eq!(step, BootStep::Failed(BootFailure::InUse));
    assert_eq!(mock.log.len(), 1);
}

#[test]
fn stale_tunnels_are_reclaimed() {
    for status in ["down", "inactive", "degraded"] {
        let mut mock = Mock::default();
        mock.stale.push(tunnel("old", status));
        mock.records.insert("myapp.example.com".into(), "r9".into());
        mock.refuse.push("/connections");
        let (step, _) = boot(&mut mock, &plan_for(false), true, Ok(true));
        assert!(matches!(step, BootStep::Running { .. }));
        assert_eq!(mock.deleted_tunnels, vec!["old"]);
        assert_eq!(mock.deleted_records, vec!["r9"]);
        assert_eq!(
            &mock.log[..6],
            &[
                "GET /accounts/acc-1/tunnels?name=myapp&is_deleted=false",
                "GET /zones/zone-1/dns_records?name=myapp.example.com",
                "DELETE /zones/zone-1/dns_records/r9",
                "DELETE /accounts/acc-1/tunnels/old/connections",
                "DELETE /accounts/acc-1/tunnels/old",
                "GET /zones/zone-1/dns_records?name=myapp.example.com",
            ]
        );
    }
}

#[test]
fn orphaned_records_are_removed() {
    let mut mock = Mock::default();
    mock.refuse.push("tunnels?name=");
    mock.records.insert("myapp.example.com".into(), "r1".into());
    mock.records.insert("other.example.com".into(), "r2".into());
    let (step, _) = boot(&mut mock, &plan_for(false), true, Ok(true));
    assert!(matches!(step, BootStep::Running { .. }));
    assert_eq!(mock.deleted_records, vec!["r1"]);
}

#[test]
fn what_cannot_be_removed_stands_in_the_way() {
    let mut mock = Mock::default();
    mock.stale.push(tunnel("old", "down"));
    mock.refuse.push("DELETE /accounts/acc-1/tunnels/old");
    let (step, _) = boot(&mut mock, &plan_for(false), true, Ok(true));
    assert_eq!(
        step,
        BootStep::Failed(BootFailure::Conflict(refused(
            "DELETE /accounts/acc-1/tunnels/old"
        )))
    );
    let mut mock = Mock::default();
    mock.records.insert("myapp.example.com".into(), "r1".into());
    mock.refuse.push("DELETE /zones");
    let (step, _) = boot(&mut mock, &plan_for(false), true, Ok(true));
    assert_eq!(
        step,
        BootStep::Failed(BootFailure::Conflict(refused("DELETE /zones")))
    );
    assert!(mock.tunnels.is_empty());
}

#[test]
fn conflicts_are_told() {
    let plan = plan_for(false);
    let said = |step: &ConflictStep, reply: &Reply| {
        step.notice(&plan, reply).map(|line| line.spans[1].text.clone())
    };
    let first = resolve_conflicts();
    assert_eq!(
        said(&first, &Reply::Tunnels(Ok(vec![tunnel("t", "down")]))).as_deref(),
        Some("Reclaiming stale tunnel \"myapp\" (down)")
    );
    assert_eq!(said(&first, &Reply::Tunnels(Ok(vec![tunnel("t", "healthy")]))), None);
    assert_eq!(
        said(&first, &Reply::Tunnels(Err(refused("no")))).as_deref(),
        Some("(could not check for existing tunnels: cloudflare api error: api error: no)")
    );
    let record = DnsRecord {
        id: "r".into(),
        name: "myapp.example.com".into(),
        content: String::new(),
    };
    assert_eq!(
        said(&ConflictStep::FindOrphan, &Reply::Records(Ok(vec![record]))).as_deref(),
        Some("Removing orphaned DNS record for myapp.example.com")
    );
    assert_eq!(said(&ConflictStep::FindOrphan, &Reply::Records(Ok(vec![]))), None);
    assert_eq!(said(&ConflictStep::Clear, &Reply::Nothing(Ok(()))), None);
}

#[test]
fn a_stopped_session_gives_everything_back() {
    let mut mock = Mock::default();
    let plan = plan_for(true);
    boot(&mut mock, &plan, true, Ok(true));
    mock.log.clear();
    let mut session = Session::start(&plan, "tun-myapp".into());
    let events = session.step(Signal::Ended(ShutdownReason::UserRequested));
    assert_eq!(
        events,
        vec![Event::ShuttingDown {
            reason: ShutdownReason::UserRequested
        }]
    );
    assert_eq!(drain(&mut mock, &mut session), vec![Event::Cleaned]);
    assert_eq!(session.phase, Phase::Finished);
    assert!(session.state.cleaned);
    assert_eq!(
        mock.log,
        vec![
            "GET /zones/zone-1/dns_records?name=myapp.example.com",
            "DELETE /zones/zone-1/dns_records/rec-0",
            "DELETE /accounts/acc-1/tunnels/tun-myapp/connections",
            "DELETE /accounts/acc-1/tunnels/tun-myapp",
        ]
    );
}

#[test]
fn releases_go_on_after_failures() {
    let mut mock = Mock::default();
    mock.refuse.push("zones");
    mock.refuse.push("accounts");
    let mut session = Session::start(&plan_for(false), "t1".into());
    session.step(Signal::Ended(ShutdownReason::ChildExited));
    assert_eq!(drain(&mut mock, &mut session), vec![Event::Cleaned]);
    assert_eq!(mock.log.len(), 3);
    assert_eq!(mock.log[2], "DELETE /accounts/acc-1/tunnels/t1");
}

#[test]
fn crashes_are_absorbed() {
    let mut mock = Mock::default();
    let mut session = Session::start(&plan_for(true), "t1".into());
    session.step(Signal::Ended(ShutdownReason::ChildExited));
    assert_eq!(
        drain(&mut mock, &mut session),
        vec![Event::Restarting {
            reason: ShutdownReason::ChildExited,
            attempt: 2
        }]
    );
    assert_eq!(session.phase, Phase::Pausing);
    assert_eq!(session.step(Signal::Woke { shutdown: false }), vec![]);
    assert_eq!(
        session.step(Signal::Rebuilt(Ok("t2".into()))),
        vec![Event::Restarted { attempt: 2 }]
    );
    assert_eq!(session.phase, Phase::Watching);
    assert_eq!(session.state.tunnel_id, "t2");
    assert_eq!(session.state.full_name, "myapp.example.com");
    assert!(!session.state.cleaned);
    session.step(Signal::Ended(ShutdownReason::Error("wait".into())));
    assert_eq!(
        drain(&mut mock, &mut session),
        vec![Event::Restarting {
            reason: ShutdownReason::Error("wait".into()),
            attempt: 3
        }]
    );
    assert_eq!(mock.deleted_tunnels, vec!["t1", "t2"]);
    assert_eq!(
        session.step(Signal::Woke { shutdown: true }),
        vec![Event::Cleaned]
    );
    assert_eq!(session.phase, Phase::Finished);
}

#[test]
fn the_budget_is_five_failures() {
    assert_eq!(MAX_RESTART_ATTEMPTS, 5);
    assert_eq!(RESTART_BACKOFF, 500);
    assert_eq!(POLL_INTERVAL, 250);
    let mut mock = Mock::default();
    let mut session = Session::start(&plan_for(true), "t1".into());
    session.step(Signal::Ended(ShutdownReason::ChildExited));
    drain(&mut mock, &mut session);
    for n in 1..=5u32 {
        session.step(Signal::Woke { shutdown: false });
        assert_eq!(session.step(Signal::Rebuilt(Err(format!("failure {n}")))), vec![]);
        assert_eq!(session.failures, n);
        let events = session.step(Signal::Ended(ShutdownReason::ChildExited));
        let ended = Event::ShuttingDown {
            reason: ShutdownReason::ChildExited,
        };
        if n < 5 {
            assert_eq!(
                events,
                vec![
                    ended,
                    Event::Restarting {
                        reason: ShutdownReason::ChildExited,
                        attempt: n + 2
                    }
                ]
            );
        } else {
            assert_eq!(
                events,
                vec![
                    ended,
                    Event::RestartGivingUp {
                        attempts: 5,
                        last_error: "failure 5".into()
                    },
                    Event::Cleaned
                ]
            );
        }
    }
    assert_eq!(session.phase, Phase::Finished);
    assert_eq!(mock.deleted_tunnels, vec!["t1"]);
}

#[test]
fn a_success_clears_the_budget() {
    let mut mock = Mock::default();
    let mut session = Session::start(&plan_for(true), "t1".into());
    session.step(Signal::Ended(ShutdownReason::ChildExited));
    drain(&mut mock, &mut session);
    session.step(Signal::Woke { shutdown: false });
    session.step(Signal::Rebuilt(Err("x".into())));
    session.step(Signal::Ended(ShutdownReason::ChildExited));
    session.step(Signal::Woke { shutdown: false });
    assert_eq!(
        session.step(Signal::Rebuilt(Ok("t2".into()))),
        vec![Event::Restarted { attempt: 3 }]
    );
    assert_eq!(session.failures, 0);
    assert_eq!(session.last_error, None);
}

#[test]
fn sessions_without_auto_restart_end() {
    let mut mock = Mock::default();
    let mut session = Session::start(&plan_for(false), "t1".into());
    session.step(Signal::Ended(ShutdownReason::ChildExited));
    assert_eq!(drain(&mut mock, &mut session), vec![Event::Cleaned]);
    assert_eq!(session.phase, Phase::Finished);
}

#[test]
fn the_user_is_asked_first() {
    assert_eq!(
        run_until_exit(true, ChildPoll::Exited),
        Some(ShutdownReason::UserRequested)
    );
    assert_eq!(
        run_until_exit(false, ChildPoll::Exited),
        Some(ShutdownReason::ChildExited)
    );
    assert_eq!(
        run_until_exit(false, ChildPoll::Failed("e".into())),
        Some(ShutdownReason::Error("e".into()))
    );
    assert_eq!(run_until_exit(false, ChildPoll::Running), None);
}

#[test]
fn cleanup_is_idempotent() {
    let mut state = SessionState {
        account_id: "a".into(),
        zone_id: "z".into(),
        full_name: "f".into(),
        tunnel_id: "t".into(),
        cleaned: false,
    };
    let copy = state.clone();
    assert_eq!(state.cleanup(), ReleaseStep::FindRecord);
    assert!(state.cleaned);
    assert_eq!(state.cleanup(), ReleaseStep::Released);
    assert_eq!(ReleaseStep::Released.request(&state, &api()), None);
    assert!(!copy.cleaned);
    let step = ReleaseStep::FindRecord.advance(&state, Reply::Records(Ok(vec![])));
    assert_eq!(step, ReleaseStep::CleanConnections);
}

#[test]
fn handles_are_stopped_once() {
    let mut handle = TunnelHandle::new("myapp.example.com".into(), "myapp".into());
    assert_eq!(handle.url(), "https://myapp.example.com");
    assert_eq!(handle.full_name(), "myapp.example.com");
    assert_eq!(handle.subdomain(), "myapp");
    assert_eq!(handle.stop(), Ok(()));
    assert_eq!(handle.stop(), Err(Error::AlreadyShutDown));
    assert_eq!(handle.stop(), Err(Error::AlreadyShutDown));
}

#[test]
fn tunnels_end_after_four_hours() {
    assert_eq!(TUNNEL_TIMEOUT, 4 * 60 * 60);
    assert_eq!(poll(false, 14399, false), None);
    assert_eq!(poll(false, 14400, true), Some(ShutdownReason::Timeout));
    assert_eq!(poll(true, 14400, true), Some(ShutdownReason::UserRequested));
    assert_eq!(poll(false, 0, true), Some(ShutdownReason::ChildExited));
}

#[test]
fn options_become_plans() {
    let config = Config {
        token: Some("t".into()),
        account_id: Some("a".into()),
        zone_id: Some("z".into()),
        domain: Some("d.org".into()),
    };
    let opts = TunnelOptions {
        protocol: Protocol::Tcp,
        port: 22,
        subdomain: Some("MyBox".into()),
    };
    let (token, plan) = run_tunnel(&opts, &config, Some(" env ")).unwrap();
    assert_eq!(token, "env");
    assert_eq!(plan.subdomain, "mybox");
    assert_eq!(plan.full_name, "mybox.d.org");
    assert_eq!(plan.account_id, "a");
    assert_eq!(plan.zone_id, "z");
    assert!(!plan.auto_restart);
    let random = TunnelOptions {
        subdomain: None,
        ..opts.clone()
    };
    let (token, plan) = run_tunnel(&random, &config, None).unwrap();
    assert_eq!(token, "t");
    assert!(plan.full_name.starts_with("user-"));
    let bad = TunnelOptions {
        subdomain: Some("a_b".into()),
        ..opts.clone()
    };
    assert_eq!(
        run_tunnel(&bad, &config, None).unwrap_err(),
        Error::Other(
            "invalid subdomain \"a_b\": use lowercase letters, digits and dashes, not starting/ending with a dash".into()
        )
    );
    assert_eq!(
        run_tunnel(&opts, &Config::default(), None).unwrap_err(),
        Error::Other("no Cloudflare API token configured".into())
    );
}

fn ready() -> Config {
    Config {
        token: Some("t".into()),
        account_id: Some("a".into()),
        zone_id: Some("z".into()),
        domain: Some("d.org".into()),
    }
}

fn named(name: &str) -> Result<String, Error> {
    let opts = TunnelOptions {
        protocol: Protocol::Http,
        port: 80,
        subdomain: Some(name.into()),
    };
    run_tunnel(&opts, &ready(), None).map(|(_, plan)| plan.subdomain)
}

#[test]
fn names_are_taken_in_lower_case() {
    let fault = |name: &str| {
        Error::Other(format!(
            "invalid subdomain \"{name}\": use lowercase letters, digits and dashes, not starting/ending with a dash"
        ))
    };
    let length = Error::Other("subdomain must be between 3 and 63 characters".into());
    assert_eq!(named("MyApp-1").unwrap(), "myapp-1");
    assert_eq!(named("\u{212A}ey").unwrap(), "key");
    assert_eq!(named("\u{212A}\u{212A}"), Err(length.clone()));
    assert_eq!(named(&"\u{212A}".repeat(63)).unwrap(), "k".repeat(63));
    assert_eq!(named(&"K".repeat(64)), Err(length.clone()));
    assert_eq!(named("ÄPFEL"), Err(fault("äpfel")));
    assert_eq!(named("ΟΔΟΣ"), Err(fault("οδος")));
    assert_eq!(named("\u{130}nn"), Err(fault("i\u{307}nn")));
    assert_eq!(named("ẞ"), Err(length));
    assert_eq!(named("-A-"), Err(fault("-a-")));
}

#[test]
fn a_tunnel_runs_under_the_name_it_is_given() {
    let opts = TunnelOptions {
        protocol: Protocol::Ssh,
        port: 22,
        subdomain: Some("ignored".into()),
    };
    let credentials = || load_ready_config(&ready(), None).unwrap();
    let (token, plan) = run_named(&opts, credentials(), "box".into()).unwrap();
    assert_eq!(token, "t");
    assert_eq!(plan.subdomain, "box");
    assert_eq!(plan.full_name, "box.d.org");
    assert_eq!(plan.protocol, Protocol::Ssh);
    assert_eq!(
        run_named(&opts, credentials(), "Box".into()).unwrap_err(),
        Error::Other(validate_subdomain("Box").unwrap_err())
    );
    assert_eq!(validate_subdomain("box"), Ok(()));
}

/// Drives a stopped tunnel to its end, and counts the signals it takes.
fn finish(mock: &mut Mock, tunnel: &mut LiveTunnel) -> (usize, Vec<Event>) {
    let mut told = Vec::new();
    let mut signals = 0;
    loop {
        let signal = match &tunnel.session.phase {
            Phase::Watching => Signal::Ended(tunnel.look(ChildPoll::Running).unwrap()),
            Phase::Releasing { .. } => {
                Signal::Answered(mock.answer(&tunnel.session.request(&api()).unwrap()))
            }
            Phase::Pausing => Signal::Woke { shutdown: false },
            Phase::Rebuilding => Signal::Rebuilt(Ok("t2".into())),
            Phase::Finished => return (signals, told),
        };
        told.extend(tunnel.step(signal));
        signals += 1;
    }
}

#[test]
fn a_granted_stop_gives_everything_back() {
    let mut mock = Mock::default();
    mock.records.insert("myapp.example.com".into(), "r1".into());
    let mut tunnel = LiveTunnel::start(&plan_for(true), "t1".into());
    assert_eq!(tunnel.handle.url(), "https://myapp.example.com");
    assert_eq!(tunnel.look(ChildPoll::Running), None);
    assert_eq!(tunnel.stop(), Ok(()));
    assert_eq!(tunnel.stop(), Err(Error::AlreadyShutDown));
    for child in [ChildPoll::Running, ChildPoll::Exited, ChildPoll::Failed("e".into())] {
        assert_eq!(tunnel.look(child), Some(ShutdownReason::UserRequested));
    }
    let (signals, told) = finish(&mut mock, &mut tunnel);
    assert_eq!(signals, 5);
    assert_eq!(
        told,
        vec![
            Event::ShuttingDown {
                reason: ShutdownReason::UserRequested
            },
            Event::Cleaned
        ]
    );
    assert_eq!(
        mock.log,
        vec![
            "GET /zones/zone-1/dns_records?name=myapp.example.com",
            "DELETE /zones/zone-1/dns_records/r1",
            "DELETE /accounts/acc-1/tunnels/t1/connections",
            "DELETE /accounts/acc-1/tunnels/t1",
        ]
    );
    assert_eq!(tunnel.give_back(), ReleaseStep::Released);
}

#[test]
fn a_stop_during_a_restart_is_heeded() {
    let mut mock = Mock::default();
    let mut tunnel = LiveTunnel::start(&plan_for(true), "t1".into());
    tunnel.step(Signal::Ended(ShutdownReason::ChildExited));
    assert_eq!(tunnel.stop(), Ok(()));
    let (signals, told) = finish(&mut mock, &mut tunnel);
    assert_eq!(signals, 4);
    assert_eq!(told.last(), Some(&Event::Cleaned));
    assert_eq!(mock.deleted_tunnels, vec!["t1"]);

    let mut mock = Mock::default();
    let mut tunnel = LiveTunnel::start(&plan_for(true), "t1".into());
    tunnel.step(Signal::Ended(ShutdownReason::ChildExited));
    while matches!(tunnel.session.phase, Phase::Releasing { .. }) {
        let reply = mock.answer(&tunnel.session.request(&api()).unwrap());
        tunnel.step(Signal::Answered(reply));
    }
    assert_eq!(tunnel.step(Signal::Woke { shutdown: true }), vec![]);
    assert_eq!(tunnel.session.phase, Phase::Rebuilding);
    assert_eq!(tunnel.stop(), Ok(()));
    let (signals, _) = finish(&mut mock, &mut tunnel);
    assert!(signals <= 7);
    assert_eq!(mock.deleted_tunnels, vec!["t1", "t2"]);
    assert!(tunnel.session.state.cleaned);
}

#[test]
fn what_a_lost_supervision_holds_is_given_back() {
    let mut tunnel = LiveTunnel::start(&plan_for(false), "t1".into());
    assert_eq!(tunnel.stop(), Ok(()));
    assert_eq!(tunnel.give_back(), ReleaseStep::FindRecord);
    assert_eq!(tunnel.give_back(), ReleaseStep::Released);
}

#[test]
fn replies_can_come_from_the_wire() {
    let bad: Option<CfResponse<Vec<Tunnel>>> = Some(CfResponse {
        success: false,
        result: None,
        errors: Some(vec![CfError {
            code: Some(81053),
            message: "exists".into(),
        }]),
    });
    let error = decode(400, "{}", bad).map_err(Error::Cloudflare);
    let step = resolve_conflicts().advance(&plan_for(false), Reply::Tunnels(error));
    assert_eq!(step, ConflictStep::FindOrphan);
}
