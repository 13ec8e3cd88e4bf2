//! Everything about the `cloudflared` binary that does not touch the system:
//! where to look for it, what to download, what is in the archive, and what its
//! log lines mean.

use vstd::prelude::*;
use vstd::string::*;

use crate::error::{Error, InstallError};
use crate::event::{Event, LogLevel};
use crate::text;

verus! {

/// Classification of one line of `cloudflared` output.
#[derive(Debug, Clone, Copy, PartialEq, Eq, Structural)]
pub enum LineKind {
    /// A new edge connection was registered.
    Connection,
    /// A real error worth surfacing.
    Error,
    /// Harmless noise (origin cert hints, retries, etc.).
    Ignore,
}

/// Parts of lines that are harmless.
pub open spec fn noise() -> Seq<Seq<char>> {
    seq![
        "cannot determine default origin certificate path"@,
        "no file cert.pem"@,
        "origincert option"@,
        "tunnel_origin_cert"@,
        "context canceled"@,
        "connection terminated"@,
        "no more connections active and exiting"@,
        "serve tunnel error"@,
        "retrying connection"@,
        "icmp router terminated"@,
        "use of closed network connection"@,
        "application error 0x0"@,
        "failed to accept quic stream"@,
        "failed to dial to edge"@,
        "timeout: no recent network activity"@,
        "quic:"@,
    ]
}

/// One of the given parts occurs in the line.
pub open spec fn has_any(line: Seq<char>, parts: Seq<Seq<char>>) -> bool {
    exists|i: int| 0 <= i < parts.len() && text::has_part(line, #[trigger] parts[i])
}

/// What a line means, apart from the case of its letters.
pub open spec fn line_kind(line: Seq<char>) -> LineKind {
    let lower = text::lower(line);
    if text::has_part(lower, "registered tunnel connection"@) {
        LineKind::Connection
    } else if has_any(lower, noise()) {
        LineKind::Ignore
    } else if text::has_part(lower, "err"@) {
        LineKind::Error
    } else {
        LineKind::Ignore
    }
}

fn ignore_patterns() -> (r: Vec<&'static str>)
    ensures
        r@.len() == noise().len(),
        forall|i: int| 0 <= i < r@.len() ==> (#[trigger] r@[i])@ == noise()[i],
{
    let mut r: Vec<&'static str> = Vec::new();
    r.push("cannot determine default origin certificate path");
    r.push("no file cert.pem");
    r.push("origincert option");
    r.push("tunnel_origin_cert");
    r.push("context canceled");
    r.push("connection terminated");
    r.push("no more connections active and exiting");
    r.push("serve tunnel error");
    r.push("retrying connection");
    r.push("icmp router terminated");
    r.push("use of closed network connection");
    r.push("application error 0x0");
    r.push("failed to accept quic stream");
    r.push("failed to dial to edge");
    r.push("timeout: no recent network activity");
    r.push("quic:");
    r
}

/// Classifies a single line of `cloudflared` output.
pub fn classify_line(line: &str) -> (r: LineKind)
    ensures
        r == line_kind(line@),
{
    let lower = text::lowercase(line);
    if text::contains(lower.as_str(), "registered tunnel connection") {
        return LineKind::Connection;
    }
    let patterns = ignore_patterns();
    let mut i: usize = 0;
    while i < patterns.len()
        invariant
            lower@ == text::lower(line@),
            !text::has_part(lower@, "registered tunnel connection"@),
            patterns@.len() == noise().len(),
            forall|j: int| 0 <= j < patterns@.len() ==> (#[trigger] patterns@[j])@ == noise()[j],
            i <= patterns@.len(),
            forall|j: int| 0 <= j < i ==> !text::has_part(lower@, #[trigger] noise()[j]),
        decreases patterns@.len() - i,
    {
        assert(patterns@[i as int]@ == noise()[i as int]);
        if text::contains(lower.as_str(), patterns[i]) {
            return LineKind::Ignore;
        }
        i = i + 1;
    }
    if text::contains(lower.as_str(), "err") {
        return LineKind::Error;
    }
    LineKind::Ignore
}

/// The case of its letters does not change what a line means.
pub proof fn line_kind_ignores_case(a: Seq<char>, b: Seq<char>)
    requires
        text::lower(a) == text::lower(b),
    ensures
        line_kind(a) == line_kind(b),
{
}

/// Reads the output of one `cloudflared` process, line by line.
#[derive(Debug, PartialEq, Eq)]
pub struct StderrPump {
    /// Edge connections seen so far.
    pub connections: usize,
}

impl StderrPump {
    /// The event that a line of output makes, when it makes one. The numbers of
    /// a connection wrap around at 256.
    pub open spec fn event(self, line: Seq<char>, event: Option<Event>) -> bool {
        let trimmed = text::trim(line);
        match line_kind(trimmed) {
            LineKind::Connection => event == Some(
                Event::EdgeConnected {
                    conn_index: (self.connections % 256) as u8,
                    total: ((self.connections + 1) % 256) as u8,
                },
            ),
            LineKind::Error => event matches Some(Event::CloudflaredLog { level, line }) && level
                == LogLevel::Error && line@ == trimmed,
            LineKind::Ignore => event is None,
        }
    }

    /// A pump for a process that has just been spawned.
    pub fn new() -> (r: Self)
        ensures
            r.connections == 0,
    {
        StderrPump { connections: 0 }
    }

    /// Takes one line of output.
    pub fn line(&mut self, line: &str) -> (r: Option<Event>)
        requires
            old(self).connections < usize::MAX,
        ensures
            old(self).event(line@, r),
            final(self).connections == old(self).connections + (if line_kind(text::trim(line@))
                == LineKind::Connection {
                1int
            } else {
                0int
            }),
    {
        let trimmed = text::trimmed(line);
        match classify_line(trimmed.as_str()) {
            LineKind::Connection => {
                let before: usize = self.connections;
                self.connections = before + 1;
                Some(
                    Event::EdgeConnected {
                        conn_index: (before % 256) as u8,
                        total: ((before + 1) % 256) as u8,
                    },
                )
            },
            LineKind::Error => Some(
                Event::CloudflaredLog { level: LogLevel::Error, line: trimmed },
            ),
            LineKind::Ignore => None,
        }
    }
}

/// Base URL for `cloudflared` release assets.
pub open spec fn github_base() -> Seq<char> {
    "https://github.com/cloudflare/cloudflared/releases/latest/download"@
}

/// A mirror prefix without surrounding white space and trailing slashes.
pub open spec fn mirror(prefix: Seq<char>) -> Seq<char> {
    text::trim_end_char(text::trim(prefix), '/')
}

/// The mirror prefix that the environment asks for; the default one when it
/// asks for none.
pub open spec fn env_mirror(value: Option<Seq<char>>) -> Seq<char> {
    match value {
        Some(prefix) => mirror(prefix),
        None => mirror("https://v4.gh-proxy.org/"@),
    }
}

fn mirror_of(prefix: &str) -> (r: String)
    ensures
        r@ == mirror(prefix@),
{
    text::without_trailing(text::trimmed(prefix).as_str(), '/')
}

/// The GitHub mirror prefix, from the value of `CFP_GITHUB_PROXY` when it is
/// set. An empty prefix disables mirroring.
pub fn github_proxy_from_env(value: Option<&str>) -> (r: String)
    ensures
        r@ == env_mirror(
            match value {
                Some(prefix) => Some(prefix@),
                None => None,
            },
        ),
{
    match value {
        Some(prefix) => mirror_of(prefix),
        None => mirror_of("https://v4.gh-proxy.org/"),
    }
}

/// The URL of an asset on GitHub.
pub open spec fn direct_url(asset: Seq<char>) -> Seq<char> {
    github_base() + "/"@ + asset
}

/// The URLs to try, given the mirror prefix.
pub open spec fn sources(asset: Seq<char>, prefix: Seq<char>) -> Seq<Seq<char>> {
    if prefix.len() == 0 {
        seq![direct_url(asset)]
    } else {
        seq![prefix + "/"@ + direct_url(asset), direct_url(asset)]
    }
}

/// What a list of strings holds.
pub open spec fn texts(list: Seq<String>) -> Seq<Seq<char>> {
    list.map_values(|s: String| s@)
}

/// The ordered list of download URLs for an asset: the mirror first, if one is
/// enabled, then GitHub itself. `proxy_override` goes before the environment.
pub fn candidate_urls(asset: &str, proxy_override: Option<&str>, env: Option<&str>) -> (r: Vec<
    String,
>)
    ensures
        texts(r@) == sources(
            asset@,
            match proxy_override {
                Some(prefix) => mirror(prefix@),
                None => env_mirror(
                    match env {
                        Some(prefix) => Some(prefix@),
                        None => None,
                    },
                ),
            },
        ),
{
    let mut direct =
        "https://github.com/cloudflare/cloudflared/releases/latest/download".to_owned();
    direct.append("/");
    direct.append(asset);
    let proxy = match proxy_override {
        Some(prefix) => mirror_of(prefix),
        None => github_proxy_from_env(env),
    };
    let mut urls: Vec<String> = Vec::new();
    if !proxy.as_str().is_empty() {
        let mut first = proxy.clone();
        first.append("/");
        first.append(direct.as_str());
        urls.push(first);
    }
    urls.push(direct);
    assert(texts(urls@) =~= sources(asset@, proxy@));
    urls
}

/// GitHub itself is always the last source, and at most one mirror goes before
/// it.
pub proof fn github_is_the_last_source(asset: Seq<char>, prefix: Seq<char>)
    ensures
        1 <= sources(asset, prefix).len() <= 2,
        sources(asset, prefix).last() == direct_url(asset),
        sources(asset, prefix).len() == 1 <==> prefix.len() == 0,
{
}

/// The platform that an operating system is: macOS goes by the name of Darwin,
/// any other by its own.
pub open spec fn platform(os: Seq<char>) -> Seq<char> {
    if os == "macos"@ {
        "darwin"@
    } else {
        os
    }
}

/// The name of a platform in the names of assets, given that of the operating
/// system.
pub fn platform_name(os: &str) -> (r: String)
    ensures
        r@ == platform(os@),
{
    if text::same(os, "macos") {
        "darwin".to_owned()
    } else {
        os.to_owned()
    }
}

/// The asset for a platform and an architecture, when there is one.
pub open spec fn asset_for(platform: Seq<char>, arch: Seq<char>) -> Option<Seq<char>> {
    if platform == "darwin"@ && arch == "x86_64"@ {
        Some("cloudflared-darwin-amd64.tgz"@)
    } else if platform == "darwin"@ && arch == "aarch64"@ {
        Some("cloudflared-darwin-arm64.tgz"@)
    } else if platform == "windows"@ && arch == "x86_64"@ {
        Some("cloudflared-windows-amd64.exe"@)
    } else if platform == "windows"@ && arch == "x86"@ {
        Some("cloudflared-windows-386.exe"@)
    } else if platform == "linux"@ && arch == "x86_64"@ {
        Some("cloudflared-linux-amd64"@)
    } else if platform == "linux"@ && arch == "aarch64"@ {
        Some("cloudflared-linux-arm64"@)
    } else if platform == "linux"@ && arch == "arm"@ {
        Some("cloudflared-linux-arm"@)
    } else {
        None
    }
}

/// Maps a platform and an architecture to the GitHub release asset.
pub fn download_asset_name(platform: &str, arch: &str) -> (r: Result<&'static str, Error>)
    ensures
        match asset_for(platform@, arch@) {
            Some(asset) => r is Ok && r->Ok_0@ == asset,
            None => r matches Err(
                Error::Cloudflared(InstallError::UnsupportedPlatform { platform: p, arch: a }),
            ) && p@ == platform@ && a@ == arch@,
        },
{
    if text::same(platform, "darwin") && text::same(arch, "x86_64") {
        Ok("cloudflared-darwin-amd64.tgz")
    } else if text::same(platform, "darwin") && text::same(arch, "aarch64") {
        Ok("cloudflared-darwin-arm64.tgz")
    } else if text::same(platform, "windows") && text::same(arch, "x86_64") {
        Ok("cloudflared-windows-amd64.exe")
    } else if text::same(platform, "windows") && text::same(arch, "x86") {
        Ok("cloudflared-windows-386.exe")
    } else if text::same(platform, "linux") && text::same(arch, "x86_64") {
        Ok("cloudflared-linux-amd64")
    } else if text::same(platform, "linux") && text::same(arch, "aarch64") {
        Ok("cloudflared-linux-arm64")
    } else if text::same(platform, "linux") && text::same(arch, "arm") {
        Ok("cloudflared-linux-arm")
    } else {
        Err(
            Error::Cloudflared(
                InstallError::UnsupportedPlatform {
                    platform: platform.to_owned(),
                    arch: arch.to_owned(),
                },
            ),
        )
    }
}

/// Only the assets for macOS are archives.
pub proof fn only_darwin_assets_are_archives(platform: Seq<char>, arch: Seq<char>)
    requires
        asset_for(platform, arch) is Some,
    ensures
        ".tgz"@.is_suffix_of(asset_for(platform, arch)->0) <==> platform == "darwin"@,
{
    reveal_strlit(".tgz");
    reveal_strlit("darwin");
    reveal_strlit("windows");
    reveal_strlit("linux");
    reveal_strlit("cloudflared-darwin-amd64.tgz");
    reveal_strlit("cloudflared-darwin-arm64.tgz");
    reveal_strlit("cloudflared-windows-amd64.exe");
    reveal_strlit("cloudflared-windows-386.exe");
    reveal_strlit("cloudflared-linux-amd64");
    reveal_strlit("cloudflared-linux-arm64");
    reveal_strlit("cloudflared-linux-arm");
    let asset = asset_for(platform, arch)->0;
    let suffix = ".tgz"@;
    assert("windows"@[0] != "darwin"@[0]);
    assert("linux"@[0] != "darwin"@[0]);
    if platform == "darwin"@ {
        assert(suffix =~= asset.subrange(asset.len() - 4, asset.len() as int));
    } else {
        assert(asset.subrange(asset.len() - 4, asset.len() as int)[3] != suffix[3]);
    }
}

/// Local file name of the binary.
pub open spec fn file_name(windows: bool) -> Seq<char> {
    if windows {
        "cloudflared.exe"@
    } else {
        "cloudflared"@
    }
}

/// Local file name of the binary.
pub fn binary_name(windows: bool) -> (r: &'static str)
    ensures
        r@ == file_name(windows),
{
    if windows {
        "cloudflared.exe"
    } else {
        "cloudflared"
    }
}

/// A line that tells of a registered connection counts as one, whatever else it
/// says and in whatever case.
pub proof fn registrations_are_connections(line: Seq<char>)
    ensures
        line_kind(line) is Connection <==> text::has_part(
            text::lower(line),
            "registered tunnel connection"@,
        ),
{
}

/// A line is an error only if it says so, and never if it has one of the marks of
/// harmless noise.
pub proof fn errors_say_so(line: Seq<char>)
    ensures
        ({
            let lower = text::lower(line);
            &&& line_kind(line) is Error ==> text::has_part(lower, "err"@)
            &&& text::has_part(lower, "cannot determine default origin certificate path"@)
                ==> line_kind(line) !is Error
            &&& text::has_part(lower, "no file cert.pem"@) ==> line_kind(line) !is Error
            &&& text::has_part(lower, "origincert option"@) ==> line_kind(line) !is Error
            &&& text::has_part(lower, "tunnel_origin_cert"@) ==> line_kind(line) !is Error
            &&& text::has_part(lower, "context canceled"@) ==> line_kind(line) !is Error
            &&& text::has_part(lower, "connection terminated"@) ==> line_kind(line) !is Error
            &&& text::has_part(lower, "no more connections active and exiting"@) ==> line_kind(
                line,
            ) !is Error
            &&& text::has_part(lower, "serve tunnel error"@) ==> line_kind(line) !is Error
            &&& text::has_part(lower, "retrying connection"@) ==> line_kind(line) !is Error
            &&& text::has_part(lower, "icmp router terminated"@) ==> line_kind(line) !is Error
            &&& text::has_part(lower, "use of closed network connection"@) ==> line_kind(line)
                !is Error
            &&& text::has_part(lower, "application error 0x0"@) ==> line_kind(line) !is Error
            &&& text::has_part(lower, "failed to accept quic stream"@) ==> line_kind(line) !is Error
            &&& text::has_part(lower, "failed to dial to edge"@) ==> line_kind(line) !is Error
            &&& text::has_part(lower, "timeout: no recent network activity"@) ==> line_kind(line)
                !is Error
            &&& text::has_part(lower, "quic:"@) ==> line_kind(line) !is Error
        }),
{
    let all = noise();
    assert(all[0] == "cannot determine default origin certificate path"@);
    assert(all[1] == "no file cert.pem"@);
    assert(all[2] == "origincert option"@);
    assert(all[3] == "tunnel_origin_cert"@);
    assert(all[4] == "context canceled"@);
    assert(all[5] == "connection terminated"@);
    assert(all[6] == "no more connections active and exiting"@);
    assert(all[7] == "serve tunnel error"@);
    assert(all[8] == "retrying connection"@);
    assert(all[9] == "icmp router terminated"@);
    assert(all[10] == "use of closed network connection"@);
    assert(all[11] == "application error 0x0"@);
    assert(all[12] == "failed to accept quic stream"@);
    assert(all[13] == "failed to dial to edge"@);
    assert(all[14] == "timeout: no recent network activity"@);
    assert(all[15] == "quic:"@);
}

/// No error is held back: a line that says so is passed over only for one of
/// the sixteen marks of harmless noise, or for a registered connection.
pub proof fn errors_are_held_back_for_a_reason(line: Seq<char>)
    requires
        text::has_part(text::lower(line), "err"@),
        line_kind(line) is Ignore,
    ensures
        ({
            let lower = text::lower(line);
            ||| text::has_part(lower, "cannot determine default origin certificate path"@)
            ||| text::has_part(lower, "no file cert.pem"@)
            ||| text::has_part(lower, "origincert option"@)
            ||| text::has_part(lower, "tunnel_origin_cert"@)
            ||| text::has_part(lower, "context canceled"@)
            ||| text::has_part(lower, "connection terminated"@)
            ||| text::has_part(lower, "no more connections active and exiting"@)
            ||| text::has_part(lower, "serve tunnel error"@)
            ||| text::has_part(lower, "retrying connection"@)
            ||| text::has_part(lower, "icmp router terminated"@)
            ||| text::has_part(lower, "use of closed network connection"@)
            ||| text::has_part(lower, "application error 0x0"@)
            ||| text::has_part(lower, "failed to accept quic stream"@)
            ||| text::has_part(lower, "failed to dial to edge"@)
            ||| text::has_part(lower, "timeout: no recent network activity"@)
            ||| text::has_part(lower, "quic:"@)
        }),
{
}

/// The numbers of a connection go up by one: the index of the first is 0, the
/// total after it 1, and each total is the index of the next. Both wrap around
/// at 256.
pub proof fn connections_are_counted(pump: StderrPump, line: Seq<char>, event: Option<Event>)
    requires
        line_kind(text::trim(line)) is Connection,
        pump.event(line, event),
    ensures
        event matches Some(Event::EdgeConnected { conn_index, total }) && conn_index as int
            == pump.connections as int % 256 && (total as int == conn_index as int + 1 || (total == 0
            && conn_index == 255)),
{
}

/// A line makes an event exactly if it is not to be ignored; an error is passed
/// on in its own words, without the white space around them.
pub proof fn errors_are_passed_on(pump: StderrPump, line: Seq<char>, event: Option<Event>)
    requires
        pump.event(line, event),
    ensures
        event is None <==> line_kind(text::trim(line)) is Ignore,
        event is Some && event->0 is CloudflaredLog <==> line_kind(text::trim(line)) is Error,
        event matches Some(Event::CloudflaredLog { level, line: text }) ==> level == LogLevel::Error
            && text@ == text::trim(line),
{
}

/// A mirror prefix counts without the white space around it and without the
/// slashes at its end; one of nothing else disables mirroring. Without one in
/// the environment there is a default.
pub proof fn mirrors_are_cleaned_up(prefix: Seq<char>)
    ensures
        mirror(prefix).is_prefix_of(text::trim(prefix)),
        mirror(prefix).len() > 0 ==> mirror(prefix).last() != '/',
        forall|i: int|
            mirror(prefix).len() <= i < text::trim(prefix).len() ==> text::trim(prefix)[i] == '/',
        env_mirror(Some(prefix)) == mirror(prefix),
        env_mirror(None) == mirror("https://v4.gh-proxy.org/"@),
{
    text::trailing_characters_are_taken_off(text::trim(prefix), '/');
}

/// A mirror is asked for the same URL as GitHub: the prefix, a slash, and the
/// whole of GitHub's own URL.
pub proof fn mirrors_are_asked_for_the_same(asset: Seq<char>, prefix: Seq<char>)
    ensures
        direct_url(asset)
            == "https://github.com/cloudflare/cloudflared/releases/latest/download"@ + "/"@ + asset,
        sources(asset, seq![]) == seq![direct_url(asset)],
        prefix.len() > 0 ==> sources(asset, prefix).len() == 2 && sources(asset, prefix)[0]
            == prefix + "/"@ + direct_url(asset) && sources(asset, prefix)[1] == direct_url(asset),
{
}

/// The seven builds that there are, each under the name of its platform and of
/// its architecture; nothing else can be had.
pub proof fn builds_go_by_platform(p: Seq<char>, arch: Seq<char>)
    ensures
        asset_for("darwin"@, "x86_64"@) == Some("cloudflared-darwin-amd64.tgz"@),
        asset_for("darwin"@, "aarch64"@) == Some("cloudflared-darwin-arm64.tgz"@),
        asset_for("windows"@, "x86_64"@) == Some("cloudflared-windows-amd64.exe"@),
        asset_for("windows"@, "x86"@) == Some("cloudflared-windows-386.exe"@),
        asset_for("linux"@, "x86_64"@) == Some("cloudflared-linux-amd64"@),
        asset_for("linux"@, "aarch64"@) == Some("cloudflared-linux-arm64"@),
        asset_for("linux"@, "arm"@) == Some("cloudflared-linux-arm"@),
        asset_for(p, arch) matches Some(asset) ==> ("cloudflared-"@ + p).is_prefix_of(asset),
        asset_for(p, arch) is Some <==> (p == "linux"@ && (arch == "x86_64"@ || arch == "aarch64"@
            || arch == "arm"@)) || (p == "darwin"@ && (arch == "x86_64"@ || arch == "aarch64"@)) || (
        p == "windows"@ && (arch == "x86_64"@ || arch == "x86"@)),
        platform("macos"@) == "darwin"@,
        p != "macos"@ ==> platform(p) == p,
        file_name(true) == file_name(false) + ".exe"@,
        file_name(false) == "cloudflared"@,
{
    reveal_strlit("cloudflared-");
    reveal_strlit("cloudflared");
    reveal_strlit("cloudflared.exe");
    reveal_strlit(".exe");
    reveal_strlit("darwin");
    reveal_strlit("windows");
    reveal_strlit("linux");
    reveal_strlit("x86_64");
    reveal_strlit("aarch64");
    reveal_strlit("x86");
    reveal_strlit("arm");
    reveal_strlit("cloudflared-darwin-amd64.tgz");
    reveal_strlit("cloudflared-darwin-arm64.tgz");
    reveal_strlit("cloudflared-windows-amd64.exe");
    reveal_strlit("cloudflared-windows-386.exe");
    reveal_strlit("cloudflared-linux-amd64");
    reveal_strlit("cloudflared-linux-arm64");
    reveal_strlit("cloudflared-linux-arm");
    assert("darwin"@.len() == 6 && "windows"@.len() == 7 && "linux"@.len() == 5);
    assert("x86_64"@.len() == 6 && "aarch64"@.len() == 7 && "x86"@.len() == 3 && "arm"@.len() == 3);
    assert("x86"@[0] == 'x' && "arm"@[0] == 'a');
    assert(file_name(true) =~= file_name(false) + ".exe"@);
    if let Some(asset) = asset_for(p, arch) {
        let head = "cloudflared-"@ + p;
        assert(head =~= asset.subrange(0, head.len() as int));
    }
}

/// A process counts its connections from nothing, one for each line that tells of
/// one.
pub proof fn connections_are_counted_up(
    fresh: StderrPump,
    pump: &mut StderrPump,
    line: &str,
    r: Option<Event>,
)
    requires
        call_ensures(StderrPump::new, (), fresh),
        old(pump).connections < usize::MAX,
        call_ensures(StderrPump::line, (pump, line), r),
    ensures
        fresh.connections == 0,
        r is Some && r->0 is EdgeConnected <==> line_kind(text::trim(line@)) is Connection,
        final(pump).connections == old(pump).connections + (if r is Some && r->0
            is EdgeConnected {
            1int
        } else {
            0int
        }),
        r matches Some(Event::EdgeConnected { conn_index, total }) ==> conn_index as int
            == old(pump).connections as int % 256 && total as int
            == final(pump).connections as int % 256,
        r matches Some(Event::CloudflaredLog { level, line: said }) ==> said@ == text::trim(line@)
            && level == LogLevel::Error,
        r is None || r->0 is EdgeConnected || r->0 is CloudflaredLog,
{
}

/// A mirror that is given goes before the one of the environment; an empty one
/// means that GitHub alone is asked.
pub proof fn a_given_mirror_goes_first(
    asset: &str,
    prefix: &str,
    env: Option<&str>,
    other: Option<&str>,
    a: Vec<String>,
    b: Vec<String>,
)
    requires
        call_ensures(candidate_urls, (asset, Some(prefix), env), a),
        call_ensures(candidate_urls, (asset, Some(prefix), other), b),
    ensures
        texts(a@) == texts(b@),
        a@.len() == 1 || a@.len() == 2,
        a@.last()@ == "https://github.com/cloudflare/cloudflared/releases/latest/download"@ + "/"@
            + asset@,
        a@.len() == 2 ==> a@[0]@ == mirror(prefix@) + "/"@ + a@[1]@,
        a@.len() == 1 <==> mirror(prefix@).len() == 0,
{
    assert(texts(a@).len() == a@.len());
    assert(texts(a@).last() == a@.last()@);
    if a@.len() == 2 {
        assert(texts(a@)[0] == a@[0]@);
        assert(texts(a@)[1] == a@[1]@);
    }
}

/// Without a mirror of one's own the one of the environment counts, or the default
/// one.
pub proof fn mirrors_come_from_the_environment(
    asset: &str,
    prefix: &str,
    set: Vec<String>,
    unset: Vec<String>,
)
    requires
        call_ensures(candidate_urls, (asset, None::<&str>, Some(prefix)), set),
        call_ensures(candidate_urls, (asset, None::<&str>, None::<&str>), unset),
    ensures
        texts(set@) == sources(asset@, mirror(prefix@)),
        texts(unset@) == sources(asset@, mirror("https://v4.gh-proxy.org/"@)),
{
}

/// A platform that there is no build for is named in the error.
pub proof fn platforms_without_a_build_are_named(
    p: &str,
    arch: &str,
    r: Result<&'static str, Error>,
)
    requires
        call_ensures(download_asset_name, (p, arch), r),
    ensures
        r is Ok <==> asset_for(p@, arch@) is Some,
        r is Ok ==> r->Ok_0@ == asset_for(p@, arch@)->0,
        r is Err ==> (r->Err_0 matches Error::Cloudflared(
            InstallError::UnsupportedPlatform { platform: q, arch: a },
        ) && q@ == p@ && a@ == arch@),
{
}

} // verus!
