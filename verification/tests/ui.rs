use cloudpipe::cli::TunnelArgs;
use cloudpipe::client::{Reply, TokenStatus, Zone, ZoneAccount};
use cloudpipe::commands::{
    command_token, handle_cleanup, handle_domain, handle_key, run_tunnel_command, switched, KeyStep,
};
use cloudpipe::config::Config;
use cloudpipe::error::Error;
use cloudpipe::event::{Event, LogLevel, ShutdownReason};
use cloudpipe::protocol::Protocol;
use cloudpipe::ui::{
    banner, cleanup_summary, error, key_status, mask_token, no_token_guide, render_event, success,
    tunnel_live, zones, Line, Style,
};

fn text(line: &Line) -> String {
    line.spans.iter().map(|s| s.text.as_str()).collect()
}

fn page(lines: &[Line]) -> Vec<String> {
    lines.iter().map(text).collect()
}

#[test]
fn token_masking_keeps_tail() {
    assert_eq!(mask_token("abcdef123456"), "****3456");
    assert_eq!(mask_token("abc"), "****");
}

#[test]
fn masks_count_characters() {
    assert_eq!(mask_token(""), "****");
    assert_eq!(mask_token("abcd"), "****");
    assert_eq!(mask_token("abcde"), "****bcde");
    assert_eq!(mask_token("éééé"), "****");
    assert_eq!(mask_token("aéééé"), "****éééé");
}

#[test]
fn events_are_rendered() {
    let shown = |event: Event| render_event(&event).map(|line| (line.to_stderr, text(&line)));
    let out = |s: &str| Some((false, s.to_string()));
    assert_eq!(
        shown(Event::Banner),
        out("⚡ cfp — serverless tunnels via Cloudflare Edge")
    );
    assert_eq!(shown(Event::ResolvingConflicts), None);
    assert_eq!(
        shown(Event::CreatingTunnel { name: "x".into() }),
        out("  Creating tunnel \"x\"...")
    );
    assert_eq!(
        shown(Event::IngressConfigured {
            protocol: Protocol::Ssh,
            port: 22
        }),
        out("  Configuring ingress (ssh)...")
    );
    assert_eq!(
        shown(Event::DnsCreated {
            full_name: "x.y".into()
        }),
        out("  Creating DNS x.y...")
    );
    assert_eq!(shown(Event::CloudflaredStarted), None);
    for total in 0..6u8 {
        let expected = match total {
            1 => out("  Edge connection established"),
            4 => out("  All 4 connections established"),
            _ => None,
        };
        assert_eq!(
            shown(Event::EdgeConnected {
                conn_index: 0,
                total
            }),
            expected
        );
    }
    assert_eq!(
        shown(Event::CloudflaredLog {
            level: LogLevel::Error,
            line: "bad".into()
        }),
        Some((true, "  [cloudflared] bad".to_string()))
    );
    assert_eq!(
        shown(Event::CloudflaredLog {
            level: LogLevel::Warn,
            line: "bad".into()
        }),
        None
    );
    let ended = |reason| shown(Event::ShuttingDown { reason });
    assert_eq!(ended(ShutdownReason::UserRequested), None);
    assert_eq!(ended(ShutdownReason::Error("e".into())), None);
    assert_eq!(
        ended(ShutdownReason::Timeout),
        out("  4h age limit reached — cleaning up.")
    );
    assert_eq!(
        ended(ShutdownReason::ChildExited),
        out("  cloudflared exited — cleaning up.")
    );
    assert_eq!(
        shown(Event::Cleaned),
        out("  Cleaning up tunnel and DNS record...")
    );
    assert_eq!(shown(Event::Restarted { attempt: 2 }), None);
    assert_eq!(banner().spans[0].style, Style::MagentaBold);
}

#[test]
fn lines_have_their_marks() {
    assert_eq!(text(&error("no")), "✖ no");
    assert!(error("no").to_stderr);
    assert_eq!(text(&success("yes")), "✔ yes");
    assert!(!success("yes").to_stderr);
    assert_eq!(text(&cleanup_summary(0)), "Nothing to clean up — all good.");
    assert_eq!(text(&cleanup_summary(3)), "✔ Removed 3 orphaned resource(s).");
}

fn zone(name: &str) -> Zone {
    Zone {
        id: format!("z-{name}"),
        name: name.into(),
        account: ZoneAccount {
            id: format!("a-{name}"),
        },
    }
}

#[test]
fn zones_are_listed() {
    assert_eq!(
        page(&zones(&vec![], None)),
        vec!["No zones accessible with this token."]
    );
    assert_eq!(
        page(&zones(&vec![zone("a.com"), zone("b.com")], Some("b.com"))),
        vec![
            "  • a.com",
            "  • b.com  (current)",
            "",
            "Switch domain: cfp domain <example.com>"
        ]
    );
}

fn config() -> Config {
    Config {
        token: Some("abcdef123456".into()),
        account_id: Some("acc".into()),
        zone_id: None,
        domain: Some("d.org".into()),
    }
}

#[test]
fn the_status_is_shown() {
    assert_eq!(
        page(&key_status(&config(), None)),
        vec![
            "Token ****3456",
            "Domain       d.org",
            "Zone ID      not set",
            "Account ID   acc",
            "",
            "Config file: ~/.cfp/config.json",
            "Clear credentials: cfp key --clear"
        ]
    );
    assert_eq!(
        page(&key_status(&Config::default(), None))[0],
        "Token not set"
    );
    assert_eq!(
        page(&key_status(&Config::default(), Some("env-token-9")))[0],
        "Token ****en-9"
    );
}

#[test]
fn the_guide_goes_to_standard_error() {
    let guide = no_token_guide();
    assert!(guide.iter().all(|line| line.to_stderr));
    assert_eq!(guide.len(), 12);
    assert_eq!(text(&guide[0]), "No Cloudflare API token configured.");
    assert_eq!(text(&guide[10]), "       cfp key <CF_API_TOKEN>");
}

#[test]
fn live_tunnels_are_celebrated() {
    let rule = format!("  {}", "─".repeat(56));
    assert_eq!(
        page(&tunnel_live("https://x.y", 8080, "http", "x")),
        vec![
            "",
            "  WE LIVE!  🚀",
            "",
            "  👉  https://x.y",
            "",
            rule.as_str(),
            "  Target  http:8080 (localhost), subdomain x",
            "  Hint  Ctrl+C to stop and clean up",
            rule.as_str(),
            ""
        ]
    );
}

#[test]
fn keys_are_cleared_shown_or_verified() {
    assert_eq!(handle_key(Some("t"), true), KeyStep::Clear);
    assert_eq!(handle_key(Some("t"), true).to_save(), Some(Config::default()));
    assert_eq!(handle_key(None, true).to_save(), Some(Config::default()));
    assert_eq!(handle_key(None, false).to_save(), None);
    assert_eq!(handle_key(Some(" "), false).to_save(), None);
    assert_eq!(handle_key(Some("t"), false).to_save(), None);
    assert_eq!(handle_key(None, false), KeyStep::Show);
    assert_eq!(
        handle_key(Some(" \t"), false),
        KeyStep::Failed("empty token — pass a non-empty value".into())
    );
    assert_eq!(
        handle_key(Some(" tok\n"), false),
        KeyStep::Verify {
            token: "tok".into()
        }
    );
    assert_eq!(
        page(&KeyStep::Clear.lines(&config(), None))[..2],
        ["✔ All credentials cleared.".to_string(), "Token not set".to_string()]
    );
    assert_eq!(
        page(&KeyStep::Show.lines(&config(), None)),
        page(&key_status(&config(), None))
    );
    assert!(KeyStep::Show.api().is_none());
}

fn verified() -> KeyStep {
    let step = handle_key(Some("tok"), false);
    let api = step.api().unwrap();
    assert_eq!(api.token, "tok");
    let request = step.request(&api).unwrap();
    assert_eq!(
        request.url,
        "https://api.cloudflare.com/client/v4/user/tokens/verify"
    );
    assert_eq!(
        page(&step.lines(&Config::default(), None)),
        vec!["  Verifying token with Cloudflare..."]
    );
    step.advance(Reply::TokenStatus(Ok(TokenStatus {
        id: "i".into(),
        status: "active".into(),
    })))
}

#[test]
fn keys_take_the_first_zone() {
    let step = verified();
    assert_eq!(
        page(&step.lines(&Config::default(), None)),
        vec!["✔ Token verified (status: active)."]
    );
    let request = step.request(&step.api().unwrap()).unwrap();
    assert_eq!(
        request.url,
        "https://api.cloudflare.com/client/v4/zones?per_page=50"
    );
    let step = step.advance(Reply::Zones(Ok(vec![zone("a.com")])));
    let KeyStep::Save { config: saved, .. } = &step else {
        panic!("expected a save");
    };
    assert_eq!(
        *saved,
        Config {
            token: Some("tok".into()),
            account_id: Some("a-a.com".into()),
            zone_id: Some("z-a.com".into()),
            domain: Some("a.com".into()),
        }
    );
    assert_eq!(step.to_save().as_ref(), Some(saved));
    assert_eq!(verified().to_save(), None);
    assert_eq!(KeyStep::Failed("x".into()).to_save(), None);
    assert_eq!(
        page(&step.lines(&Config::default(), None))[0],
        "✔ Saved. Tunnels will be exposed under a.com."
    );
    let step = verified().advance(Reply::Zones(Ok(vec![zone("a.com"), zone("b.com")])));
    assert_eq!(
        page(&step.lines(&Config::default(), None)),
        vec![
            "",
            "Multiple zones are accessible:",
            "  • a.com  (current)",
            "  • b.com",
            "",
            "Switch domain: cfp domain <example.com>",
            "✔ Saved (default domain: a.com). Switch with `cfp domain <name>`."
        ]
    );
}

#[test]
fn keys_that_do_not_work_are_not_saved() {
    let step = handle_key(Some("tok"), false);
    assert_eq!(
        step.advance(Reply::TokenStatus(Err(Error::Io("down".into())))),
        KeyStep::Failed(
            "verifying token (check the value, network, or permissions): io error: down".into()
        )
    );
    assert_eq!(
        verified().advance(Reply::Zones(Ok(vec![]))),
        KeyStep::Failed(
            "token is valid but has access to no zones — add a Zone:Read resource to the token"
                .into()
        )
    );
    assert_eq!(
        verified().advance(Reply::Zones(Err(Error::Io("down".into())))),
        KeyStep::Failed(
            "listing accessible zones — make sure the token has Zone:Read on at least one zone: io error: down"
                .into()
        )
    );
}

#[test]
fn domains_are_switched() {
    let zones = vec![zone("a.com"), zone("b.com")];
    assert_eq!(
        handle_domain(config(), "b.com", Ok(zones.clone())),
        Ok(Config {
            token: config().token,
            account_id: Some("a-b.com".into()),
            zone_id: Some("z-b.com".into()),
            domain: Some("b.com".into()),
        })
    );
    assert_eq!(
        handle_domain(config(), "c.com", Ok(zones)),
        Err("zone \"c.com\" is not accessible with the saved token".to_string())
    );
    assert_eq!(
        handle_domain(config(), "c.com", Err(Error::Io("x".into()))),
        Err("looking up zone \"c.com\": io error: x".to_string())
    );
    assert_eq!(text(&switched("b.com")), "✔ Switched to b.com.");
}

#[test]
fn commands_say_what_is_missing() {
    let message = |e: Error| e.message();
    assert_eq!(command_token(&config(), Some("e")), Ok("e".to_string()));
    assert_eq!(
        command_token(&Config::default(), None).map_err(message),
        Err("no token configured — run `cfp key <token>` first".to_string())
    );
    assert_eq!(
        handle_cleanup(&Config::default(), None).map_err(message).unwrap_err(),
        "no token configured — run `cfp key <token>` first"
    );
    assert_eq!(
        handle_cleanup(&config(), None).map_err(message).unwrap_err(),
        "zone not configured — run `cfp key <token>` first"
    );
    let args = TunnelArgs {
        protocol: Protocol::Udp,
        port: 53,
        subdomain: None,
    };
    assert_eq!(
        run_tunnel_command(&args, &Config::default(), None)
            .map_err(message)
            .unwrap_err(),
        "no Cloudflare API token configured"
    );
    let mut full = config();
    full.zone_id = Some("z".into());
    full.account_id = None;
    assert_eq!(
        run_tunnel_command(&args, &full, None).map_err(message).unwrap_err(),
        "account not configured — run `cfp key <token>` first"
    );
    full.account_id = Some("acc".into());
    full.domain = None;
    assert_eq!(
        run_tunnel_command(&args, &full, None).map_err(message).unwrap_err(),
        "domain not configured — run `cfp key <token>` first"
    );
    full.domain = Some("d.org".into());
    let b = run_tunnel_command(&args, &full, None).unwrap();
    assert_eq!(b.token.as_deref(), Some("abcdef123456"));
    assert_eq!(b.account_id.as_deref(), Some("acc"));
    assert_eq!(b.zone_id.as_deref(), Some("z"));
    assert_eq!(b.domain.as_deref(), Some("d.org"));
    assert_eq!(b.subdomain.as_deref(), Some(""));
    assert_eq!(b.protocol, Protocol::Udp);
    assert_eq!(b.port, 53);
    let launch = b.start().unwrap();
    assert_eq!(launch.subdomain, None);
    let c = handle_cleanup(&full, None).unwrap();
    assert_eq!(c.domain, "d.org");
}
