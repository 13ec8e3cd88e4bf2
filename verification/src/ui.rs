//! What the command line tool shows, as lines of styled text.

use vstd::prelude::*;
use vstd::string::*;

use crate::client::Zone;
use crate::config;
use crate::config::Config;
use crate::event::{Event, LogLevel, ShutdownReason};
use crate::protocol::Protocol;
use crate::text;

verus! {

/// How a piece of text is shown.
#[derive(Debug, Clone, Copy, PartialEq, Eq, Structural)]
pub enum Style {
    /// As it is.
    Plain,
    /// Bold.
    Bold,
    /// Dimmed.
    Dimmed,
    /// Green.
    Green,
    /// Bold green.
    GreenBold,
    /// Yellow.
    Yellow,
    /// Red.
    Red,
    /// Bold red.
    RedBold,
    /// Bright cyan.
    Cyan,
    /// Bright cyan, bold and underlined.
    CyanLink,
    /// Bold bright magenta.
    MagentaBold,
}

/// A piece of text in one style.
#[derive(Debug, PartialEq, Eq)]
pub struct Span {
    /// How it is shown.
    pub style: Style,
    /// What it says.
    pub text: String,
}

/// One line.
#[derive(Debug, PartialEq, Eq)]
pub struct Line {
    /// Whether it goes to standard error.
    pub to_stderr: bool,
    /// Its pieces.
    pub spans: Vec<Span>,
}

impl View for Span {
    type V = (Style, Seq<char>);

    open spec fn view(&self) -> (Style, Seq<char>) {
        (self.style, self.text@)
    }
}

impl Line {
    /// What the line says, piece by piece.
    pub open spec fn says(self) -> Seq<(Style, Seq<char>)> {
        self.spans@.map_values(|span: Span| span@)
    }

    /// The line goes to standard output and says this.
    pub open spec fn is(self, says: Seq<(Style, Seq<char>)>) -> bool {
        !self.to_stderr && self.says() == says
    }

    /// The line goes to standard error and says this.
    pub open spec fn warns(self, says: Seq<(Style, Seq<char>)>) -> bool {
        self.to_stderr && self.says() == says
    }

    fn new(to_stderr: bool) -> (r: Line)
        ensures
            r.to_stderr == to_stderr,
            r.says() == Seq::<(Style, Seq<char>)>::empty(),
    {
        let r = Line { to_stderr, spans: Vec::new() };
        assert(r.says() =~= Seq::<(Style, Seq<char>)>::empty());
        r
    }

    fn with(self, style: Style, text: &str) -> (r: Line)
        ensures
            r.to_stderr == self.to_stderr,
            r.says() == self.says().push((style, text@)),
    {
        let mut spans = self.spans;
        spans.push(Span { style, text: text.to_owned() });
        let r = Line { to_stderr: self.to_stderr, spans };
        assert(r.says() =~= self.says().push((style, text@)));
        r
    }
}

/// What a list of lines says.
pub open spec fn page(lines: Seq<Line>) -> Seq<Seq<(Style, Seq<char>)>> {
    lines.map_values(|line: Line| line.says())
}

/// An indented line in one style.
pub open spec fn indented(style: Style, text: Seq<char>) -> Seq<(Style, Seq<char>)> {
    seq![(Style::Plain, "  "@), (style, text)]
}

pub(crate) fn indent(style: Style, text: &str) -> (r: Line)
    ensures
        r.is(indented(style, text@)),
{
    let r = Line::new(false).with(Style::Plain, "  ").with(style, text);
    assert(r.says() =~= indented(style, text@));
    r
}

/// The small startup banner.
pub fn banner() -> (r: Line)
    ensures
        r.is(
            seq![
                (Style::MagentaBold, "⚡ cfp"@),
                (Style::Plain, " "@),
                (Style::Dimmed, "— serverless tunnels via Cloudflare Edge"@),
            ],
        ),
{
    let r = Line::new(false).with(Style::MagentaBold, "⚡ cfp").with(Style::Plain, " ").with(
        Style::Dimmed,
        "— serverless tunnels via Cloudflare Edge",
    );
    assert(r.says() =~= seq![
        (Style::MagentaBold, "⚡ cfp"@),
        (Style::Plain, " "@),
        (Style::Dimmed, "— serverless tunnels via Cloudflare Edge"@),
    ]);
    r
}

/// What is shown of an event; `None` for nothing.
pub open spec fn shown(event: Event) -> Option<Seq<(Style, Seq<char>)>> {
    match event {
        Event::Banner => Some(
            seq![
                (Style::MagentaBold, "⚡ cfp"@),
                (Style::Plain, " "@),
                (Style::Dimmed, "— serverless tunnels via Cloudflare Edge"@),
            ],
        ),
        Event::CreatingTunnel { name } => Some(
            indented(Style::Dimmed, "Creating tunnel \""@ + name@ + "\"..."@),
        ),
        Event::IngressConfigured { protocol, .. } => Some(
            indented(Style::Dimmed, "Configuring ingress ("@ + protocol.name() + ")..."@),
        ),
        Event::DnsCreated { full_name } => Some(
            indented(Style::Dimmed, "Creating DNS "@ + full_name@ + "..."@),
        ),
        Event::EdgeConnected { total, .. } => if total == 1 {
            Some(indented(Style::Green, "Edge connection established"@))
        } else if total == 4 {
            Some(indented(Style::Green, "All 4 connections established"@))
        } else {
            None
        },
        Event::CloudflaredLog { level: LogLevel::Error, line } => Some(
            seq![(Style::Plain, "  [cloudflared] "@), (Style::Yellow, line@)],
        ),
        Event::ShuttingDown { reason: ShutdownReason::Timeout } => Some(
            indented(Style::Yellow, "4h age limit reached — cleaning up."@),
        ),
        Event::ShuttingDown { reason: ShutdownReason::ChildExited } => Some(
            indented(Style::Yellow, "cloudflared exited — cleaning up."@),
        ),
        Event::Cleaned => Some(indented(Style::Dimmed, "Cleaning up tunnel and DNS record..."@)),
        _ => None,
    }
}

/// Renders a single event. Only log lines go to standard error.
pub fn render_event(event: &Event) -> (r: Option<Line>)
    ensures
        match shown(*event) {
            Some(says) => r is Some && r->0.says() == says && (r->0.to_stderr <==> event
                is CloudflaredLog),
            None => r is None,
        },
{
    match event {
        Event::Banner => Some(banner()),
        Event::CreatingTunnel { name } => {
            let mut text = "Creating tunnel \"".to_owned();
            text.append(name.as_str());
            text.append("\"...");
            Some(indent(Style::Dimmed, text.as_str()))
        },
        Event::IngressConfigured { protocol, .. } => {
            let mut text = "Configuring ingress (".to_owned();
            text.append(protocol.as_str());
            text.append(")...");
            Some(indent(Style::Dimmed, text.as_str()))
        },
        Event::DnsCreated { full_name } => {
            let mut text = "Creating DNS ".to_owned();
            text.append(full_name.as_str());
            text.append("...");
            Some(indent(Style::Dimmed, text.as_str()))
        },
        Event::EdgeConnected { total, .. } => {
            if *total == 1 {
                Some(indent(Style::Green, "Edge connection established"))
            } else if *total == 4 {
                Some(indent(Style::Green, "All 4 connections established"))
            } else {
                None
            }
        },
        Event::CloudflaredLog { level: LogLevel::Error, line } => {
            let r = Line::new(true).with(Style::Plain, "  [cloudflared] ").with(
                Style::Yellow,
                line.as_str(),
            );
            assert(r.says() =~= seq![(Style::Plain, "  [cloudflared] "@), (Style::Yellow, line@)]);
            Some(r)
        },
        Event::ShuttingDown { reason: ShutdownReason::Timeout } => Some(
            indent(Style::Yellow, "4h age limit reached — cleaning up."),
        ),
        Event::ShuttingDown { reason: ShutdownReason::ChildExited } => Some(
            indent(Style::Yellow, "cloudflared exited — cleaning up."),
        ),
        Event::Cleaned => Some(indent(Style::Dimmed, "Cleaning up tunnel and DNS record...")),
        _ => None,
    }
}

/// An error, in red, for standard error.
pub fn error(message: &str) -> (r: Line)
    ensures
        r.warns(seq![(Style::RedBold, "✖"@), (Style::Plain, " "@), (Style::Red, message@)]),
{
    let r = Line::new(true).with(Style::RedBold, "✖").with(Style::Plain, " ").with(
        Style::Red,
        message,
    );
    assert(r.says() =~= seq![(Style::RedBold, "✖"@), (Style::Plain, " "@), (Style::Red, message@)]);
    r
}

/// A success line.
pub open spec fn success_text(message: Seq<char>) -> Seq<(Style, Seq<char>)> {
    seq![(Style::GreenBold, "✔"@), (Style::Plain, " "@), (Style::Plain, message)]
}

/// A success line.
pub fn success(message: &str) -> (r: Line)
    ensures
        r.is(success_text(message@)),
{
    let r = Line::new(false).with(Style::GreenBold, "✔").with(Style::Plain, " ").with(
        Style::Plain,
        message,
    );
    assert(r.says() =~= success_text(message@));
    r
}

/// A token with all but its last four characters hidden; a short one is hidden
/// whole.
pub open spec fn masked(token: Seq<char>) -> Seq<char> {
    if token.len() <= 4 {
        "****"@
    } else {
        "****"@ + token.skip(token.len() - 4)
    }
}

/// Masks a token, keeping only its last 4 characters.
pub fn mask_token(token: &str) -> (r: String)
    ensures
        r@ == masked(token@),
{
    let v = text::chars_of(token);
    let n: usize = v.len();
    let mut r = "****".to_owned();
    if n > 4 {
        let tail = text::text_of(&v, n - 4, n);
        assert(tail@ =~= token@.skip(token@.len() - 4));
        r.append(tail.as_str());
    }
    r
}

/// A masked token shows at most the last four characters of the token: two
/// long tokens with the same ending look the same, and so do all short ones.
pub proof fn masks_hide_the_rest(a: Seq<char>, b: Seq<char>)
    ensures
        masked(a).len() <= 8,
        a.len() <= 4 && b.len() <= 4 ==> masked(a) == masked(b),
        a.len() > 4 && b.len() > 4 && a.skip(a.len() - 4) == b.skip(b.len() - 4) ==> masked(a)
            == masked(b),
{
    reveal_strlit("****");
}

/// A line without text.
pub open spec fn nothing() -> Seq<(Style, Seq<char>)> {
    seq![]
}

/// A line in one style.
pub open spec fn one(style: Style, text: Seq<char>) -> Seq<(Style, Seq<char>)> {
    seq![(style, text)]
}

/// A line in two styles.
pub open spec fn two(
    first: Style,
    head: Seq<char>,
    second: Style,
    tail: Seq<char>,
) -> Seq<(Style, Seq<char>)> {
    seq![(first, head), (second, tail)]
}

pub(crate) fn line_of_none() -> (r: Line)
    ensures
        r.is(nothing()),
{
    let r = Line::new(false);
    assert(r.says() =~= nothing());
    r
}

pub(crate) fn line_of_one(to_stderr: bool, style: Style, text: &str) -> (r: Line)
    ensures
        r.to_stderr == to_stderr,
        r.says() == one(style, text@),
{
    let r = Line::new(to_stderr).with(style, text);
    assert(r.says() =~= one(style, text@));
    r
}

pub(crate) fn line_of_three(
    first: Style,
    head: &str,
    second: Style,
    middle: &str,
    third: Style,
    tail: &str,
) -> (r: Line)
    ensures
        r.is(seq![(first, head@), (second, middle@), (third, tail@)]),
{
    let r = Line::new(false).with(first, head).with(second, middle).with(third, tail);
    assert(r.says() =~= seq![(first, head@), (second, middle@), (third, tail@)]);
    r
}

fn line_of_two(to_stderr: bool, first: Style, head: &str, second: Style, tail: &str) -> (r: Line)
    ensures
        r.to_stderr == to_stderr,
        r.says() == two(first, head@, second, tail@),
{
    let r = Line::new(to_stderr).with(first, head).with(second, tail);
    assert(r.says() =~= two(first, head@, second, tail@));
    r
}

/// All of these lines go to the same place.
pub open spec fn all_to(lines: Seq<Line>, to_stderr: bool) -> bool {
    forall|i: int| 0 <= i < lines.len() ==> (#[trigger] lines[i]).to_stderr == to_stderr
}

/// Nothing to clean up, or how much was removed.
pub fn cleanup_summary(removed: usize) -> (r: Line)
    ensures
        r.is(
            if removed == 0 {
                one(Style::Green, "Nothing to clean up — all good."@)
            } else {
                success_text("Removed "@ + text::decimal(removed as nat) + " orphaned resource(s)."@)
            },
        ),
{
    if removed == 0 {
        return line_of_one(false, Style::Green, "Nothing to clean up — all good.");
    }
    let mut message = "Removed ".to_owned();
    message.append(text::decimal_text(removed as u64).as_str());
    message.append(" orphaned resource(s).");
    success(message.as_str())
}

/// One accessible zone, with a mark if it is the current one.
pub open spec fn zone_line(zone: Zone, current: Option<Seq<char>>) -> Seq<(Style, Seq<char>)> {
    let line = two(Style::Plain, "  • "@, Style::Cyan, zone.name@);
    if current == Some(zone.name@) {
        line.push((Style::Green, "  (current)"@))
    } else {
        line
    }
}

/// The list of accessible zones.
pub open spec fn zones_page(zones: Seq<Zone>, current: Option<Seq<char>>) -> Seq<
    Seq<(Style, Seq<char>)>,
> {
    if zones.len() == 0 {
        seq![one(Style::Yellow, "No zones accessible with this token."@)]
    } else {
        zones.map_values(|zone: Zone| zone_line(zone, current)) + seq![
            nothing(),
            two(Style::Plain, "Switch domain: "@, Style::Dimmed, "cfp domain <example.com>"@),
        ]
    }
}

/// Shows the list of accessible zones (`cfp domains`).
pub fn zones(list: &Vec<Zone>, current_domain: Option<&str>) -> (r: Vec<Line>)
    ensures
        page(r@) == zones_page(list@, config::str_view(current_domain)),
        all_to(r@, false),
{
    let ghost current = config::str_view(current_domain);
    let mut lines: Vec<Line> = Vec::new();
    if list.len() == 0 {
        lines.push(line_of_one(false, Style::Yellow, "No zones accessible with this token."));
        assert(page(lines@) =~= zones_page(list@, current));
        return lines;
    }
    let mut i: usize = 0;
    while i < list.len()
        invariant
            i <= list@.len(),
            lines@.len() == i,
            current == config::str_view(current_domain),
            all_to(lines@, false),
            forall|j: int|
                0 <= j < i ==> (#[trigger] lines@[j]).says() == zone_line(list@[j], current),
        decreases list@.len() - i,
    {
        let mut line = line_of_two(false, Style::Plain, "  • ", Style::Cyan, list[i].name.as_str());
        if let Some(domain) = current_domain {
            if text::same(list[i].name.as_str(), domain) {
                line = line.with(Style::Green, "  (current)");
            }
        }
        lines.push(line);
        i = i + 1;
    }
    lines.push(Line::new(false));
    lines.push(
        line_of_two(
            false,
            Style::Plain,
            "Switch domain: ",
            Style::Dimmed,
            "cfp domain <example.com>",
        ),
    );
    assert(page(lines@) =~= zones_page(list@, current));
    lines
}

/// A label of at least twelve characters, filled up with spaces.
pub open spec fn padded(label: Seq<char>) -> Seq<char> {
    if label.len() >= 12 {
        label
    } else {
        label + Seq::new((12 - label.len()) as nat, |i: int| ' ')
    }
}

fn pad(label: &str) -> (r: String)
    ensures
        r@ == padded(label@),
{
    let mut r = label.to_owned();
    let mut n: usize = text::chars_of(label).len();
    let ghost start = n as int;
    while n < 12
        invariant
            start == label@.len(),
            n >= start,
            n > start ==> n <= 12,
            r@ == label@ + Seq::new((n - start) as nat, |i: int| ' '),
        decreases 12 - n,
    {
        r.push(' ');
        assert(r@ =~= label@ + Seq::new((n + 1 - start) as nat, |i: int| ' '));
        n = n + 1;
    }
    assert(r@ =~= padded(label@));
    r
}

/// A labelled value, or that it is not set.
pub open spec fn field_line(label: Seq<char>, value: Option<Seq<char>>) -> Seq<
    (Style, Seq<char>),
> {
    match value {
        Some(value) => seq![
            (Style::Bold, padded(label)),
            (Style::Plain, " "@),
            (Style::Plain, value),
        ],
        None => seq![
            (Style::Bold, padded(label)),
            (Style::Plain, " "@),
            (Style::Yellow, "not set"@),
        ],
    }
}

fn print_field(label: &str, value: &Option<String>) -> (r: Line)
    ensures
        r.is(field_line(label@, config::view_of(*value))),
{
    let head = Line::new(false).with(Style::Bold, pad(label).as_str()).with(Style::Plain, " ");
    let r = match value {
        Some(value) => head.with(Style::Plain, value.as_str()),
        None => head.with(Style::Yellow, "not set"),
    };
    assert(r.says() =~= field_line(label@, config::view_of(*value)));
    r
}

/// The token in effect, masked, or that it is not set.
pub open spec fn token_line(token: Option<Seq<char>>) -> Seq<(Style, Seq<char>)> {
    match token {
        Some(token) => seq![
            (Style::Bold, "Token"@),
            (Style::Plain, " "@),
            (Style::Dimmed, masked(token)),
        ],
        None => seq![
            (Style::Bold, "Token"@),
            (Style::Plain, " "@),
            (Style::Red, "not set"@),
        ],
    }
}

/// The credential status.
pub open spec fn status_page(config: Config, env: Option<Seq<char>>) -> Seq<
    Seq<(Style, Seq<char>)>,
> {
    seq![
        token_line(config.token_in_effect(env)),
        field_line("Domain"@, config::view_of(config.domain)),
        field_line("Zone ID"@, config::view_of(config.zone_id)),
        field_line("Account ID"@, config::view_of(config.account_id)),
        nothing(),
        one(Style::Plain, "Config file: ~/.cfp/config.json"@),
        two(Style::Plain, "Clear credentials: "@, Style::Dimmed, "cfp key --clear"@),
    ]
}

/// Shows the current credential status (`cfp key` with no arguments).
pub fn key_status(config: &Config, env: Option<&str>) -> (r: Vec<Line>)
    ensures
        page(r@) == status_page(*config, config::str_view(env)),
        all_to(r@, false),
{
    let mut lines: Vec<Line> = Vec::new();
    let head = Line::new(false).with(Style::Bold, "Token").with(Style::Plain, " ");
    let token = config.effective_token(env);
    let first = match &token {
        Some(token) => head.with(Style::Dimmed, mask_token(token.as_str()).as_str()),
        None => head.with(Style::Red, "not set"),
    };
    assert(first.says() =~= token_line(config.token_in_effect(config::str_view(env))));
    lines.push(first);
    lines.push(print_field("Domain", &config.domain));
    lines.push(print_field("Zone ID", &config.zone_id));
    lines.push(print_field("Account ID", &config.account_id));
    lines.push(Line::new(false));
    lines.push(line_of_one(false, Style::Plain, "Config file: ~/.cfp/config.json"));
    lines.push(
        line_of_two(false, Style::Plain, "Clear credentials: ", Style::Dimmed, "cfp key --clear"),
    );
    assert(page(lines@) =~= status_page(*config, config::str_view(env)));
    lines
}

/// The onboarding guide.
pub open spec fn guide_page() -> Seq<Seq<(Style, Seq<char>)>> {
    seq![
        one(Style::RedBold, "No Cloudflare API token configured."@),
        nothing(),
        one(Style::Bold, "One-time setup (30 seconds):"@),
        one(Style::Plain, "  1. Open https://dash.cloudflare.com/profile/api-tokens"@),
        one(Style::Plain, "  2. Create Token → custom token with these permissions:"@),
        one(Style::Plain, "       Account → Cloudflare Tunnel → Edit"@),
        one(Style::Plain, "       Zone     → DNS               → Edit"@),
        one(Style::Plain, "       Zone     → Zone              → Read"@),
        one(Style::Plain, "  3. Then run:"@),
        nothing(),
        two(Style::Plain, "       "@, Style::Cyan, "cfp key <CF_API_TOKEN>"@),
        nothing(),
    ]
}

/// The onboarding guide shown when no API token is configured.
pub fn no_token_guide() -> (r: Vec<Line>)
    ensures
        page(r@) == guide_page(),
        all_to(r@, true),
{
    let mut lines: Vec<Line> = Vec::new();
    lines.push(line_of_one(true, Style::RedBold, "No Cloudflare API token configured."));
    lines.push(Line::new(true));
    lines.push(line_of_one(true, Style::Bold, "One-time setup (30 seconds):"));
    lines.push(
        line_of_one(
            true,
            Style::Plain,
            "  1. Open https://dash.cloudflare.com/profile/api-tokens",
        ),
    );
    lines.push(
        line_of_one(
            true,
            Style::Plain,
            "  2. Create Token → custom token with these permissions:",
        ),
    );
    lines.push(line_of_one(true, Style::Plain, "       Account → Cloudflare Tunnel → Edit"));
    lines.push(line_of_one(true, Style::Plain, "       Zone     → DNS               → Edit"));
    lines.push(line_of_one(true, Style::Plain, "       Zone     → Zone              → Read"));
    lines.push(line_of_one(true, Style::Plain, "  3. Then run:"));
    lines.push(Line::new(true));
    lines.push(line_of_two(true, Style::Plain, "       ", Style::Cyan, "cfp key <CF_API_TOKEN>"));
    lines.push(Line::new(true));
    assert(page(lines@) =~= guide_page());
    lines
}

/// A horizontal rule.
pub open spec fn rule() -> Seq<char> {
    Seq::new(56, |i: int| '─')
}

fn rule_text() -> (r: String)
    ensures
        r@ == rule(),
{
    let mut r = String::new();
    let mut n: usize = 0;
    assert(r@ =~= Seq::new(0, |i: int| '─'));
    while n < 56
        invariant
            n <= 56,
            r@ == Seq::new(n as nat, |i: int| '─'),
        decreases 56 - n,
    {
        r.push('─');
        n = n + 1;
        assert(r@ =~= Seq::new(n as nat, |i: int| '─'));
    }
    r
}

/// What is shown once a tunnel is live.
pub open spec fn live_page(
    url: Seq<char>,
    port: u16,
    protocol: Seq<char>,
    subdomain: Seq<char>,
) -> Seq<Seq<(Style, Seq<char>)>> {
    seq![
        nothing(),
        seq![(Style::Plain, "  "@), (Style::GreenBold, "WE LIVE!"@), (Style::Plain, "  🚀"@)],
        nothing(),
        two(Style::Plain, "  👉  "@, Style::CyanLink, url),
        nothing(),
        two(Style::Plain, "  "@, Style::Dimmed, rule()),
        seq![
            (Style::Plain, "  "@),
            (Style::Dimmed, "Target"@),
            (Style::Plain, "  "@ + protocol + ":"@ + text::decimal(port as nat) + " ("@),
            (Style::Dimmed, "localhost"@),
            (Style::Plain, "), subdomain "@ + subdomain),
        ],
        seq![
            (Style::Plain, "  "@),
            (Style::Dimmed, "Hint"@),
            (Style::Plain, "  Ctrl+C to stop and clean up"@),
        ],
        two(Style::Plain, "  "@, Style::Dimmed, rule()),
        nothing(),
    ]
}

/// Shows the success block after the URL is live.
pub fn tunnel_live(url: &str, port: u16, protocol: &str, subdomain: &str) -> (r: Vec<Line>)
    ensures
        page(r@) == live_page(url@, port, protocol@, subdomain@),
        all_to(r@, false),
{
    let ghost whole = live_page(url@, port, protocol@, subdomain@);
    let mut lines: Vec<Line> = Vec::new();
    lines.push(Line::new(false));
    let live = Line::new(false).with(Style::Plain, "  ").with(Style::GreenBold, "WE LIVE!").with(
        Style::Plain,
        "  🚀",
    );
    assert(live.says() =~= whole[1]);
    lines.push(live);
    lines.push(Line::new(false));
    lines.push(line_of_two(false, Style::Plain, "  👉  ", Style::CyanLink, url));
    lines.push(Line::new(false));
    let rule = rule_text();
    lines.push(line_of_two(false, Style::Plain, "  ", Style::Dimmed, rule.as_str()));
    let mut target = "  ".to_owned();
    target.append(protocol);
    target.append(":");
    target.append(text::decimal_text(port as u64).as_str());
    target.append(" (");
    let mut name = "), subdomain ".to_owned();
    name.append(subdomain);
    let local = Line::new(false).with(Style::Plain, "  ").with(Style::Dimmed, "Target").with(
        Style::Plain,
        target.as_str(),
    ).with(Style::Dimmed, "localhost").with(Style::Plain, name.as_str());
    assert(local.says() =~= whole[6]);
    lines.push(local);
    let hint = Line::new(false).with(Style::Plain, "  ").with(Style::Dimmed, "Hint").with(
        Style::Plain,
        "  Ctrl+C to stop and clean up",
    );
    assert(hint.says() =~= whole[7]);
    lines.push(hint);
    lines.push(line_of_two(false, Style::Plain, "  ", Style::Dimmed, rule.as_str()));
    lines.push(Line::new(false));
    assert(page(lines@) =~= whole);
    lines
}

/// What is shown of a token is four stars and, of a token that is longer than
/// that, its last four characters.
pub proof fn masks_show_the_end(token: &str, r: String)
    requires
        call_ensures(mask_token, (token,), r),
    ensures
        r@.take(4) == "****"@,
        token@.len() <= 4 ==> r@.len() == 4,
        token@.len() > 4 ==> r@.len() == 8 && r@.skip(4) == token@.skip(token@.len() - 4),
{
    reveal_strlit("****");
    assert(r@.take(4) =~= "****"@);
    if token@.len() > 4 {
        assert(r@.skip(4) =~= token@.skip(token@.len() - 4));
    }
}

/// What is shown of the events that have something to say; a log line is shown
/// only if it is an error, and a connection only if it is the first or the
/// fourth. The wish of the user is not told back.
pub proof fn events_are_shown_in_words(event: Event)
    ensures
        event matches Event::CreatingTunnel { name } ==> shown(event) == Some(
            indented(Style::Dimmed, "Creating tunnel \""@ + name@ + "\"..."@),
        ),
        event matches Event::IngressConfigured { protocol, .. } ==> shown(event) == Some(
            indented(Style::Dimmed, "Configuring ingress ("@ + protocol.name() + ")..."@),
        ),
        event matches Event::DnsCreated { full_name } ==> shown(event) == Some(
            indented(Style::Dimmed, "Creating DNS "@ + full_name@ + "..."@),
        ),
        event matches Event::EdgeConnected { total, .. } ==> {
            &&& shown(event) is Some <==> total == 1 || total == 4
            &&& total == 1 ==> shown(event) == Some(
                indented(Style::Green, "Edge connection established"@),
            )
            &&& total == 4 ==> shown(event) == Some(
                indented(Style::Green, "All 4 connections established"@),
            )
        },
        event matches Event::CloudflaredLog { level, line } ==> {
            &&& shown(event) is Some <==> level == LogLevel::Error
            &&& level == LogLevel::Error ==> shown(event)->0.len() == 2 && shown(event)->0[1].1
                == line@
        },
        event matches Event::ShuttingDown { reason } ==> {
            &&& shown(event) is Some <==> reason is Timeout || reason is ChildExited
            &&& reason is Timeout ==> shown(event) == Some(
                indented(Style::Yellow, "4h age limit reached — cleaning up."@),
            )
            &&& reason is ChildExited ==> shown(event) == Some(
                indented(Style::Yellow, "cloudflared exited — cleaning up."@),
            )
        },
        event is Cleaned ==> shown(event) == Some(
            indented(Style::Dimmed, "Cleaning up tunnel and DNS record..."@),
        ),
        event is Banner ==> shown(event) is Some,
        event is ResolvingConflicts || event is CloudflaredStarted || event is Restarting || event
            is Restarted || event is RestartGivingUp ==> shown(event) is None,
{
}

/// An indented line begins with two blanks; a success with its mark.
pub proof fn lines_have_their_beginning(style: Style, text: Seq<char>)
    ensures
        indented(style, text).len() == 2,
        indented(style, text)[0] == (Style::Plain, "  "@),
        indented(style, text)[1] == (style, text),
        success_text(text).len() == 3,
        success_text(text)[0] == (Style::GreenBold, "✔"@),
        success_text(text)[2] == (Style::Plain, text),
{
}

/// Every zone has its line, in order, and exactly those of the current domain are
/// marked.
pub proof fn zones_are_listed_in_order(zones: Seq<Zone>, current: Option<Seq<char>>, i: int)
    requires
        0 <= i < zones.len(),
    ensures
        ({
            let page = zones_page(zones, current);
            &&& page.len() == zones.len() + 2
            &&& page[i].len() >= 2
            &&& page[i][1] == (Style::Cyan, zones[i].name@)
            &&& page[i].len() == 3 <==> current == Some(zones[i].name@)
            &&& page[i].len() == 3 ==> page[i][2] == (Style::Green, "  (current)"@)
        }),
        zones_page(seq![], current) == seq![
            one(Style::Yellow, "No zones accessible with this token."@),
        ],
{
}

/// A label is filled up with blanks to twelve characters, and is never cut.
pub proof fn labels_are_filled_up(label: Seq<char>)
    ensures
        padded(label).len() == (if label.len() < 12 {
            12
        } else {
            label.len()
        }),
        padded(label).take(label.len() as int) == label,
        forall|i: int| label.len() <= i < padded(label).len() ==> #[trigger] padded(label)[i] == ' ',
{
    assert(padded(label).take(label.len() as int) =~= label);
}

/// The status shows the token, masked, and then the domain, the zone and the
/// account, each under its label; what is missing is said to be.
pub proof fn the_status_shows_everything(config: Config, env: Option<Seq<char>>)
    ensures
        ({
            let page = status_page(config, env);
            &&& page.len() == 7
            &&& config.token_in_effect(env) matches Some(token) ==> page[0][2] == (
                Style::Dimmed,
                masked(token),
            )
            &&& config.token_in_effect(env) is None ==> page[0][2] == (Style::Red, "not set"@)
            &&& config.domain matches Some(domain) ==> page[1][2] == (Style::Plain, domain@)
            &&& config.domain is None ==> page[1][2] == (Style::Yellow, "not set"@)
            &&& config.zone_id matches Some(zone) ==> page[2][2] == (Style::Plain, zone@)
            &&& config.zone_id is None ==> page[2][2] == (Style::Yellow, "not set"@)
            &&& config.account_id matches Some(account) ==> page[3][2] == (Style::Plain, account@)
            &&& config.account_id is None ==> page[3][2] == (Style::Yellow, "not set"@)
            &&& page[0][0] == (Style::Bold, "Token"@)
            &&& page[1][0] == (Style::Bold, padded("Domain"@))
            &&& page[2][0] == (Style::Bold, padded("Zone ID"@))
            &&& page[3][0] == (Style::Bold, padded("Account ID"@))
        }),
{
}

/// The page of a live tunnel has its URL, and where it leads.
pub proof fn live_pages_tell_where_it_leads(
    url: Seq<char>,
    port: u16,
    protocol: Seq<char>,
    subdomain: Seq<char>,
)
    ensures
        ({
            let page = live_page(url, port, protocol, subdomain);
            &&& page.len() == 10
            &&& page[3][1] == (Style::CyanLink, url)
            &&& page[6][2] == (
                Style::Plain,
                "  "@ + protocol + ":"@ + text::decimal(port as nat) + " ("@,
            )
            &&& page[6][4] == (Style::Plain, "), subdomain "@ + subdomain)
        }),
{
}

/// What is said at the end of a cleanup counts what was removed.
pub proof fn summaries_count(removed: usize, r: Line)
    requires
        call_ensures(cleanup_summary, (removed,), r),
    ensures
        !r.to_stderr,
        removed == 0 ==> r.says() == one(Style::Green, "Nothing to clean up — all good."@),
        removed > 0 ==> r.says().last() == (
            Style::Plain,
            "Removed "@ + text::decimal(removed as nat) + " orphaned resource(s)."@,
        ),
{
}

/// Errors and the lines of the log go to standard error, and nothing else does.
pub proof fn errors_go_to_standard_error(
    event: Event,
    message: &str,
    shown_line: Option<Line>,
    failure: Line,
    done: Line,
)
    requires
        call_ensures(render_event, (&event,), shown_line),
        call_ensures(error, (message,), failure),
        call_ensures(success, (message,), done),
    ensures
        failure.to_stderr,
        failure.says().last() == (Style::Red, message@),
        !done.to_stderr,
        done.says().last() == (Style::Plain, message@),
        shown_line is Some ==> (shown_line->0.to_stderr <==> event is CloudflaredLog),
        shown_line is Some <==> shown(event) is Some,
{
}

/// The guide for those without a token tells where to make one, the three
/// permissions that it needs, and the command to give it to; all of it goes to
/// standard error.
pub proof fn the_guide_tells_what_to_do(r: Vec<Line>)
    requires
        call_ensures(no_token_guide, (), r),
    ensures
        all_to(r@, true),
        r@.len() == 12,
        page(r@)[3] == one(
            Style::Plain,
            "  1. Open https://dash.cloudflare.com/profile/api-tokens"@,
        ),
        page(r@)[5] == one(Style::Plain, "       Account → Cloudflare Tunnel → Edit"@),
        page(r@)[6] == one(Style::Plain, "       Zone     → DNS               → Edit"@),
        page(r@)[7] == one(Style::Plain, "       Zone     → Zone              → Read"@),
        page(r@)[10][1] == (Style::Cyan, "cfp key <CF_API_TOKEN>"@),
{
    assert(page(r@).len() == r@.len());
}

/// What is shown is the page that belongs to it, on standard output.
pub proof fn pages_are_shown_as_they_are(
    event: Event,
    line: Option<Line>,
    url: &str,
    port: u16,
    protocol: &str,
    subdomain: &str,
    live: Vec<Line>,
    config: Config,
    env: Option<&str>,
    status: Vec<Line>,
    list: Vec<Zone>,
    domain: &str,
    listed: Vec<Line>,
)
    requires
        call_ensures(render_event, (&event,), line),
        call_ensures(tunnel_live, (url, port, protocol, subdomain), live),
        call_ensures(key_status, (&config, env), status),
        call_ensures(zones, (&list, Some(domain)), listed),
    ensures
        line is Some ==> line->0.says() == shown(event)->0,
        page(live@) == live_page(url@, port, protocol@, subdomain@),
        all_to(live@, false),
        page(status@) == status_page(config, config::str_view(env)),
        all_to(status@, false),
        page(listed@) == zones_page(list@, Some(domain@)),
        all_to(listed@, false),
{
}

} // verus!
