use cloudpipe::binary::{
    binary_name, candidate_urls, classify_line, download_asset_name, github_proxy_from_env,
    platform_name, LineKind, StderrPump,
};
use cloudpipe::error::{Error, InstallError};
use cloudpipe::event::{Event, LogLevel};

#[test]
fn binary_asset_names_are_platform_specific() {
    assert_eq!(
        download_asset_name("linux", "x86_64").unwrap(),
        "cloudflared-linux-amd64"
    );
    assert_eq!(
        download_asset_name("darwin", "aarch64").unwrap(),
        "cloudflared-darwin-arm64.tgz"
    );
    assert_eq!(
        download_asset_name("windows", "x86_64").unwrap(),
        "cloudflared-windows-amd64.exe"
    );
    assert!(download_asset_name("freebsd", "x86_64").is_err());
}

#[test]
fn cloudflared_asset_names_are_platform_specific() {
    assert_eq!(
        download_asset_name("linux", "x86_64").unwrap(),
        "cloudflared-linux-amd64"
    );
    assert_eq!(
        download_asset_name("darwin", "aarch64").unwrap(),
        "cloudflared-darwin-arm64.tgz"
    );
    assert_eq!(
        download_asset_name("windows", "x86_64").unwrap(),
        "cloudflared-windows-amd64.exe"
    );
    assert!(download_asset_name("freebsd", "x86_64").is_err());
}

#[test]
fn all_other_assets() {
    assert_eq!(
        download_asset_name("darwin", "x86_64").unwrap(),
        "cloudflared-darwin-amd64.tgz"
    );
    assert_eq!(
        download_asset_name("windows", "x86").unwrap(),
        "cloudflared-windows-386.exe"
    );
    assert_eq!(
        download_asset_name("linux", "aarch64").unwrap(),
        "cloudflared-linux-arm64"
    );
    assert_eq!(
        download_asset_name("linux", "arm").unwrap(),
        "cloudflared-linux-arm"
    );
    assert_eq!(
        download_asset_name("linux", "mips").unwrap_err(),
        Error::Cloudflared(InstallError::UnsupportedPlatform {
            platform: "linux".to_string(),
            arch: "mips".to_string(),
        })
    );
    assert_eq!(platform_name("macos"), "darwin");
    assert_eq!(platform_name("linux"), "linux");
    assert_eq!(binary_name(true), "cloudflared.exe");
    assert_eq!(binary_name(false), "cloudflared");
}

#[test]
fn binary_line_classification() {
    assert_eq!(
        classify_line("2026-01-01 Registered tunnel connection connIndex=0"),
        LineKind::Connection
    );
    assert_eq!(
        classify_line("ERR Failed to dial to edge"),
        LineKind::Ignore,
    );
    assert_eq!(
        classify_line("ERR something went very wrong"),
        LineKind::Error
    );
    assert_eq!(
        classify_line("Cannot determine default origin certificate path"),
        LineKind::Ignore
    );
}

#[test]
fn cloudflared_line_classification() {
    assert_eq!(
        classify_line("2026-01-01 Registered tunnel connection connIndex=0"),
        LineKind::Connection
    );
    assert_eq!(
        classify_line("ERR Failed to dial to edge"),
        LineKind::Ignore, // network noise is ignored, not fatal
    );
    assert_eq!(
        classify_line("ERR something went very wrong"),
        LineKind::Error
    );
    assert_eq!(
        classify_line("Cannot determine default origin certificate path"),
        LineKind::Ignore
    );
}

#[test]
fn every_kind_of_noise_is_ignored() {
    for part in [
        "cannot determine default origin certificate path",
        "no file cert.pem",
        "origincert option",
        "tunnel_origin_cert",
        "context canceled",
        "connection terminated",
        "no more connections active and exiting",
        "serve tunnel error",
        "retrying connection",
        "icmp router terminated",
        "use of closed network connection",
        "application error 0x0",
        "failed to accept quic stream",
        "failed to dial to edge",
        "timeout: no recent network activity",
        "quic:",
    ] {
        let line = format!("ERR {} !", part.to_uppercase());
        assert_eq!(classify_line(&line), LineKind::Ignore, "{line}");
    }
    assert_eq!(classify_line("INF all is well"), LineKind::Ignore);
    assert_eq!(classify_line("An eRRor"), LineKind::Error);
    assert_eq!(classify_line(""), LineKind::Ignore);
}

#[test]
fn candidate_urls_with_proxy_prepends_mirror() {
    let urls = candidate_urls("cloudflared-linux-amd64", Some("https://gh-proxy.org/"), None);
    assert_eq!(urls.len(), 2);
    assert_eq!(
        urls[0],
        "https://gh-proxy.org/https://github.com/cloudflare/cloudflared/releases/latest/download/cloudflared-linux-amd64"
    );
    assert_eq!(
        urls[1],
        "https://github.com/cloudflare/cloudflared/releases/latest/download/cloudflared-linux-amd64"
    );
}

#[test]
fn candidate_urls_disabled_when_proxy_empty() {
    let urls = candidate_urls("cloudflared-linux-amd64", Some(""), None);
    assert_eq!(urls.len(), 1);
    assert_eq!(
        urls[0],
        "https://github.com/cloudflare/cloudflared/releases/latest/download/cloudflared-linux-amd64"
    );
}

#[test]
fn candidate_urls_strips_trailing_slashes_from_proxy() {
    let urls = candidate_urls("cloudflared-linux-amd64", Some("https://gh-proxy.org///"), None);
    assert_eq!(
        urls[0],
        "https://gh-proxy.org/https://github.com/cloudflare/cloudflared/releases/latest/download/cloudflared-linux-amd64"
    );
}

#[test]
fn the_environment_names_the_mirror() {
    assert_eq!(github_proxy_from_env(None), "https://v4.gh-proxy.org");
    assert_eq!(github_proxy_from_env(Some("  https://m/// ")), "https://m");
    assert_eq!(github_proxy_from_env(Some("")), "");
    let urls = candidate_urls("a", None, None);
    assert_eq!(
        urls[0],
        "https://v4.gh-proxy.org/https://github.com/cloudflare/cloudflared/releases/latest/download/a"
    );
    assert_eq!(candidate_urls("a", None, Some(" / ")).len(), 1);
    assert_eq!(
        candidate_urls("a", Some("https://x"), Some("https://y"))[0],
        "https://x/https://github.com/cloudflare/cloudflared/releases/latest/download/a"
    );
}

#[test]
fn connections_are_counted() {
    let mut pump = StderrPump::new();
    assert_eq!(pump.line("   \n"), None);
    assert_eq!(
        pump.line(" Registered tunnel connection \n"),
        Some(Event::EdgeConnected {
            conn_index: 0,
            total: 1,
        })
    );
    assert_eq!(
        pump.line("registered tunnel connection"),
        Some(Event::EdgeConnected {
            conn_index: 1,
            total: 2,
        })
    );
    assert_eq!(
        pump.line("  ERR bad \n"),
        Some(Event::CloudflaredLog {
            level: LogLevel::Error,
            line: "ERR bad".to_string(),
        })
    );
    assert_eq!(pump.line("ERR context canceled"), None);
    assert_eq!(pump.connections, 2);
    let mut full = StderrPump { connections: 255 };
    assert_eq!(
        full.line("registered tunnel connection"),
        Some(Event::EdgeConnected {
            conn_index: 255,
            total: 0,
        })
    );
}
