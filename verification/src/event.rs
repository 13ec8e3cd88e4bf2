//! Lifecycle events of a running tunnel, and the form in which they are handed
//! to JavaScript: a stable camelCase name and a JSON document.

use vstd::prelude::*;
use vstd::string::*;

use crate::error::CloudflareErrorKind;
use crate::json;
use crate::json::Json;
use crate::protocol::Protocol;

verus! {

/// Severity of a [`Event::CloudflaredLog`] line.
#[derive(Debug, Clone, Copy, PartialEq, Eq, Structural)]
pub enum LogLevel {
    /// Informational noise.
    Info,
    /// Worth showing but not fatal.
    Warn,
    /// A real error from `cloudflared`.
    Error,
}

/// Why a tunnel session ended (and is potentially being restarted).
///
/// With auto-restart enabled only `UserRequested` marks the tunnel as dead:
/// after any other reason `cloudflared` is respawned on the same URL.
#[derive(Debug, PartialEq, Eq)]
pub enum ShutdownReason {
    /// The user asked the tunnel to stop (or the program is exiting).
    UserRequested,
    /// The tunnel reached the age limit of the command line tool.
    Timeout,
    /// `cloudflared` exited unexpectedly on its own.
    ChildExited,
    /// An internal task reported an unrecoverable error.
    Error(String),
}

/// A lifecycle event.
#[derive(Debug, PartialEq, Eq)]
pub enum Event {
    /// The very first event of a fresh start.
    Banner,
    /// Cloudflare is being asked for a pre-existing tunnel or DNS record with
    /// the chosen name.
    ResolvingConflicts,
    /// A new tunnel is being created on Cloudflare.
    CreatingTunnel {
        /// Tunnel name (== subdomain).
        name: String,
    },
    /// The tunnel's remote ingress configuration has been written.
    IngressConfigured {
        /// Local protocol scheme.
        protocol: Protocol,
        /// Local port.
        port: u16,
    },
    /// The DNS CNAME record has been created.
    DnsCreated {
        /// Full hostname (e.g. `myapp.example.com`).
        full_name: String,
    },
    /// `cloudflared` was spawned successfully.
    CloudflaredStarted,
    /// The previous session ended and a new one is being created on the same
    /// URL.
    Restarting {
        /// Why the previous session ended.
        reason: ShutdownReason,
        /// Number of the attempt that follows; the first restart is number 2.
        attempt: u32,
    },
    /// A new session is running on the same URL.
    Restarted {
        /// The number that the latest [`Event::Restarting`] announced.
        attempt: u32,
    },
    /// The retry budget is exhausted; the session is about to end.
    RestartGivingUp {
        /// How many consecutive bootstrap failures occurred.
        attempts: u32,
        /// Text of the last failure.
        last_error: String,
    },
    /// A new edge connection was registered.
    EdgeConnected {
        /// 0-based connection index.
        conn_index: u8,
        /// Total connections established so far.
        total: u8,
    },
    /// A log line emitted by `cloudflared`, after filtering.
    CloudflaredLog {
        /// Log severity.
        level: LogLevel,
        /// The line, trimmed.
        line: String,
    },
    /// The tunnel is starting to shut down. Resources are still being
    /// released; see [`Event::Cleaned`] for the terminal state.
    ShuttingDown {
        /// Why the shutdown started.
        reason: ShutdownReason,
    },
    /// All Cloudflare-side resources have been cleaned up. The last event of a
    /// tunnel's lifetime.
    Cleaned,
}

impl Clone for ShutdownReason {
    fn clone(&self) -> (r: Self)
        ensures
            r == *self,
    {
        match self {
            ShutdownReason::UserRequested => ShutdownReason::UserRequested,
            ShutdownReason::Timeout => ShutdownReason::Timeout,
            ShutdownReason::ChildExited => ShutdownReason::ChildExited,
            ShutdownReason::Error(message) => ShutdownReason::Error(message.clone()),
        }
    }
}

impl Clone for Event {
    fn clone(&self) -> (r: Self)
        ensures
            r == *self,
    {
        match self {
            Event::Banner => Event::Banner,
            Event::ResolvingConflicts => Event::ResolvingConflicts,
            Event::CreatingTunnel { name } => Event::CreatingTunnel { name: name.clone() },
            Event::IngressConfigured { protocol, port } => Event::IngressConfigured {
                protocol: *protocol,
                port: *port,
            },
            Event::DnsCreated { full_name } => Event::DnsCreated { full_name: full_name.clone() },
            Event::CloudflaredStarted => Event::CloudflaredStarted,
            Event::Restarting { reason, attempt } => Event::Restarting {
                reason: reason.clone(),
                attempt: *attempt,
            },
            Event::Restarted { attempt } => Event::Restarted { attempt: *attempt },
            Event::RestartGivingUp { attempts, last_error } => Event::RestartGivingUp {
                attempts: *attempts,
                last_error: last_error.clone(),
            },
            Event::EdgeConnected { conn_index, total } => Event::EdgeConnected {
                conn_index: *conn_index,
                total: *total,
            },
            Event::CloudflaredLog { level, line } => Event::CloudflaredLog {
                level: *level,
                line: line.clone(),
            },
            Event::ShuttingDown { reason } => Event::ShuttingDown { reason: reason.clone() },
            Event::Cleaned => Event::Cleaned,
        }
    }
}

impl LogLevel {
    /// The severity as JavaScript sees it.
    pub open spec fn label(self) -> Seq<char> {
        match self {
            LogLevel::Info => "info"@,
            LogLevel::Warn => "warn"@,
            LogLevel::Error => "error"@,
        }
    }
}

impl ShutdownReason {
    /// The reason as a document.
    pub open spec fn document(self) -> Json {
        let nothing = json::nothing();
        Json::Object(
            match self {
                ShutdownReason::UserRequested => nothing.insert(
                    "kind"@,
                    Json::Text("userRequested"@),
                ),
                ShutdownReason::ChildExited => nothing.insert("kind"@, Json::Text("childExited"@)),
                ShutdownReason::Error(message) => nothing.insert(
                    "kind"@,
                    Json::Text("error"@),
                ).insert("message"@, Json::Text(message@)),
                ShutdownReason::Timeout => nothing.insert("kind"@, Json::Text("other"@)).insert(
                    "debug"@,
                    Json::Text("Timeout"@),
                ),
            },
        )
    }
}

impl Event {
    /// The stable name of the event.
    pub open spec fn name(self) -> Seq<char> {
        match self {
            Event::Banner => "banner"@,
            Event::ResolvingConflicts => "resolvingConflicts"@,
            Event::CreatingTunnel { .. } => "creatingTunnel"@,
            Event::IngressConfigured { .. } => "ingressConfigured"@,
            Event::DnsCreated { .. } => "dnsCreated"@,
            Event::CloudflaredStarted => "cloudflaredStarted"@,
            Event::Restarting { .. } => "restarting"@,
            Event::Restarted { .. } => "restarted"@,
            Event::RestartGivingUp { .. } => "restartGivingUp"@,
            Event::EdgeConnected { .. } => "edgeConnected"@,
            Event::CloudflaredLog { .. } => "cloudflaredLog"@,
            Event::ShuttingDown { .. } => "shuttingDown"@,
            Event::Cleaned => "cleaned"@,
        }
    }

    /// The fields of the event, by their camelCase names.
    pub open spec fn fields(self) -> Map<Seq<char>, Json> {
        let nothing = json::nothing();
        match self {
            Event::CreatingTunnel { name } => nothing.insert("name"@, Json::Text(name@)),
            Event::IngressConfigured { protocol, port } => nothing.insert(
                "protocol"@,
                Json::Text(protocol.name()),
            ).insert("port"@, Json::Number(port as nat)),
            Event::DnsCreated { full_name } => nothing.insert(
                "fullName"@,
                Json::Text(full_name@),
            ),
            Event::Restarting { reason, attempt } => nothing.insert(
                "reason"@,
                reason.document(),
            ).insert("attempt"@, Json::Number(attempt as nat)),
            Event::Restarted { attempt } => nothing.insert(
                "attempt"@,
                Json::Number(attempt as nat),
            ),
            Event::RestartGivingUp { attempts, last_error } => nothing.insert(
                "attempts"@,
                Json::Number(attempts as nat),
            ).insert("lastError"@, Json::Text(last_error@)),
            Event::EdgeConnected { conn_index, total } => nothing.insert(
                "connIndex"@,
                Json::Number(conn_index as nat),
            ).insert("total"@, Json::Number(total as nat)),
            Event::CloudflaredLog { level, line } => nothing.insert(
                "level"@,
                Json::Text(level.label()),
            ).insert("line"@, Json::Text(line@)),
            Event::ShuttingDown { reason } => nothing.insert("reason"@, reason.document()),
            _ => nothing,
        }
    }

    /// The number of the variant, in the order of declaration.
    pub open spec fn variant(self) -> int {
        match self {
            Event::Banner => 0,
            Event::ResolvingConflicts => 1,
            Event::CreatingTunnel { .. } => 2,
            Event::IngressConfigured { .. } => 3,
            Event::DnsCreated { .. } => 4,
            Event::CloudflaredStarted => 5,
            Event::Restarting { .. } => 6,
            Event::Restarted { .. } => 7,
            Event::RestartGivingUp { .. } => 8,
            Event::EdgeConnected { .. } => 9,
            Event::CloudflaredLog { .. } => 10,
            Event::ShuttingDown { .. } => 11,
            Event::Cleaned => 12,
        }
    }
}

/// Each variant has a name of its own: two events share a name exactly if they
/// are of the same variant. No name is empty.
pub proof fn event_names_are_distinct(a: Event, b: Event)
    ensures
        a.name() == b.name() <==> a.variant() == b.variant(),
        a.name().len() > 0,
{
    reveal_strlit("banner");
    reveal_strlit("resolvingConflicts");
    reveal_strlit("creatingTunnel");
    reveal_strlit("ingressConfigured");
    reveal_strlit("dnsCreated");
    reveal_strlit("cloudflaredStarted");
    reveal_strlit("restarting");
    reveal_strlit("restarted");
    reveal_strlit("restartGivingUp");
    reveal_strlit("edgeConnected");
    reveal_strlit("cloudflaredLog");
    reveal_strlit("shuttingDown");
    reveal_strlit("cleaned");
    if a.variant() != b.variant() && a.name().len() == b.name().len() {
        assert(a.name()[0] != b.name()[0] || a.name()[7] != b.name()[7] || a.name()[9]
            != b.name()[9]);
    }
}

/// The severity as JavaScript sees it.
pub fn log_level_str(level: LogLevel) -> (r: &'static str)
    ensures
        r@ == level.label(),
{
    match level {
        LogLevel::Info => "info",
        LogLevel::Warn => "warn",
        LogLevel::Error => "error",
    }
}

/// The reason as a JSON value.
fn reason_to_value(reason: &ShutdownReason) -> (r: serde_json::Value)
    ensures
        json::json_of(r) == reason.document(),
{
    let mut members = json::no_members();
    match reason {
        ShutdownReason::UserRequested => {
            json::insert(&mut members, "kind", json::string("userRequested"));
        },
        ShutdownReason::ChildExited => {
            json::insert(&mut members, "kind", json::string("childExited"));
        },
        ShutdownReason::Error(message) => {
            json::insert(&mut members, "kind", json::string("error"));
            json::insert(&mut members, "message", json::string(message.as_str()));
        },
        ShutdownReason::Timeout => {
            json::insert(&mut members, "kind", json::string("other"));
            json::insert(&mut members, "debug", json::string("Timeout"));
        },
    }
    json::object(members)
}

/// The name and the JSON text of an event.
pub fn event_to_payload(event: &Event) -> (r: (&'static str, String))
    ensures
        r.0@ == event.name(),
        r.1@ == json::json_text(Json::Object(event.fields())),
{
    let mut members = json::no_members();
    let name = match event {
        Event::Banner => "banner",
        Event::ResolvingConflicts => "resolvingConflicts",
        Event::CreatingTunnel { name } => {
            json::insert(&mut members, "name", json::string(name.as_str()));
            "creatingTunnel"
        },
        Event::IngressConfigured { protocol, port } => {
            json::insert(&mut members, "protocol", json::string(protocol.as_str()));
            json::insert(&mut members, "port", json::integer(*port as u64));
            "ingressConfigured"
        },
        Event::DnsCreated { full_name } => {
            json::insert(&mut members, "fullName", json::string(full_name.as_str()));
            "dnsCreated"
        },
        Event::CloudflaredStarted => "cloudflaredStarted",
        Event::Restarting { reason, attempt } => {
            json::insert(&mut members, "reason", reason_to_value(reason));
            json::insert(&mut members, "attempt", json::integer(*attempt as u64));
            "restarting"
        },
        Event::Restarted { attempt } => {
            json::insert(&mut members, "attempt", json::integer(*attempt as u64));
            "restarted"
        },
        Event::RestartGivingUp { attempts, last_error } => {
            json::insert(&mut members, "attempts", json::integer(*attempts as u64));
            json::insert(&mut members, "lastError", json::string(last_error.as_str()));
            "restartGivingUp"
        },
        Event::EdgeConnected { conn_index, total } => {
            json::insert(&mut members, "connIndex", json::integer(*conn_index as u64));
            json::insert(&mut members, "total", json::integer(*total as u64));
            "edgeConnected"
        },
        Event::CloudflaredLog { level, line } => {
            json::insert(&mut members, "level", json::string(log_level_str(*level)));
            json::insert(&mut members, "line", json::string(line.as_str()));
            "cloudflaredLog"
        },
        Event::ShuttingDown { reason } => {
            json::insert(&mut members, "reason", reason_to_value(reason));
            "shuttingDown"
        },
        Event::Cleaned => "cleaned",
    };
    (name, json::render(&json::object(members)))
}

impl CloudflareErrorKind {
    /// The kind as JavaScript names it.
    pub open spec fn camel_name(self) -> Seq<char> {
        match self {
            CloudflareErrorKind::RateLimited => "rateLimited"@,
            CloudflareErrorKind::DnsExists => "dnsExists"@,
            CloudflareErrorKind::AuthFailed => "authFailed"@,
            CloudflareErrorKind::InvalidToken => "invalidToken"@,
            CloudflareErrorKind::Other(_) => "other"@,
        }
    }
}

/// The camelCase name of an error kind.
pub fn cf_kind_name(kind: CloudflareErrorKind) -> (r: &'static str)
    ensures
        r@ == kind.camel_name(),
{
    match kind {
        CloudflareErrorKind::RateLimited => "rateLimited",
        CloudflareErrorKind::DnsExists => "dnsExists",
        CloudflareErrorKind::AuthFailed => "authFailed",
        CloudflareErrorKind::InvalidToken => "invalidToken",
        CloudflareErrorKind::Other(_) => "other",
    }
}

/// The name of an event says which one it is.
pub proof fn events_are_told_by_name(event: Event)
    ensures
        event.name() == "banner"@ <==> event is Banner,
        event.name() == "resolvingConflicts"@ <==> event is ResolvingConflicts,
        event.name() == "creatingTunnel"@ <==> event is CreatingTunnel,
        event.name() == "ingressConfigured"@ <==> event is IngressConfigured,
        event.name() == "dnsCreated"@ <==> event is DnsCreated,
        event.name() == "cloudflaredStarted"@ <==> event is CloudflaredStarted,
        event.name() == "restarting"@ <==> event is Restarting,
        event.name() == "restarted"@ <==> event is Restarted,
        event.name() == "restartGivingUp"@ <==> event is RestartGivingUp,
        event.name() == "edgeConnected"@ <==> event is EdgeConnected,
        event.name() == "cloudflaredLog"@ <==> event is CloudflaredLog,
        event.name() == "shuttingDown"@ <==> event is ShuttingDown,
        event.name() == "cleaned"@ <==> event is Cleaned,
{
    let none = Protocol::Http;
    let text = arbitrary::<String>();
    let reason = ShutdownReason::Timeout;
    event_names_are_distinct(event, Event::Banner);
    event_names_are_distinct(event, Event::ResolvingConflicts);
    event_names_are_distinct(event, Event::CreatingTunnel { name: text });
    event_names_are_distinct(event, Event::IngressConfigured { protocol: none, port: 0 });
    event_names_are_distinct(event, Event::DnsCreated { full_name: text });
    event_names_are_distinct(event, Event::CloudflaredStarted);
    event_names_are_distinct(event, Event::Restarting { reason, attempt: 0 });
    event_names_are_distinct(event, Event::Restarted { attempt: 0 });
    event_names_are_distinct(event, Event::RestartGivingUp { attempts: 0, last_error: text });
    event_names_are_distinct(event, Event::EdgeConnected { conn_index: 0, total: 0 });
    event_names_are_distinct(event, Event::CloudflaredLog { level: LogLevel::Info, line: text });
    event_names_are_distinct(event, Event::ShuttingDown { reason });
    event_names_are_distinct(event, Event::Cleaned);
}

/// Every field of an event is handed on under its own name, with its own value,
/// and nothing else is.
pub proof fn events_hand_on_their_fields(event: Event)
    ensures
        event matches Event::CreatingTunnel { name } ==> event.fields().dom() == set!["name"@]
            && event.fields()["name"@] == Json::Text(name@),
        event matches Event::IngressConfigured { protocol, port } ==> event.fields().dom() == set![
            "protocol"@,
            "port"@,
        ] && event.fields()["protocol"@] == Json::Text(protocol.name()) && event.fields()["port"@]
            == Json::Number(port as nat),
        event matches Event::DnsCreated { full_name } ==> event.fields().dom() == set!["fullName"@]
            && event.fields()["fullName"@] == Json::Text(full_name@),
        event matches Event::Restarting { reason, attempt } ==> event.fields().dom() == set![
            "reason"@,
            "attempt"@,
        ] && event.fields()["reason"@] == reason.document() && event.fields()["attempt"@]
            == Json::Number(attempt as nat),
        event matches Event::Restarted { attempt } ==> event.fields().dom() == set!["attempt"@]
            && event.fields()["attempt"@] == Json::Number(attempt as nat),
        event matches Event::RestartGivingUp { attempts, last_error } ==> event.fields().dom()
            == set!["attempts"@, "lastError"@] && event.fields()["attempts"@] == Json::Number(
            attempts as nat,
        ) && event.fields()["lastError"@] == Json::Text(last_error@),
        event matches Event::EdgeConnected { conn_index, total } ==> event.fields().dom() == set![
            "connIndex"@,
            "total"@,
        ] && event.fields()["connIndex"@] == Json::Number(conn_index as nat)
            && event.fields()["total"@] == Json::Number(total as nat),
        event matches Event::CloudflaredLog { level, line } ==> event.fields().dom() == set![
            "level"@,
            "line"@,
        ] && event.fields()["level"@] == Json::Text(level.label()) && event.fields()["line"@]
            == Json::Text(line@),
        event matches Event::ShuttingDown { reason } ==> event.fields().dom() == set!["reason"@]
            && event.fields()["reason"@] == reason.document(),
        event is Banner || event is ResolvingConflicts || event is CloudflaredStarted || event
            is Cleaned ==> event.fields().dom() == Set::<Seq<char>>::empty(),
{
    reveal_strlit("protocol");
    reveal_strlit("port");
    reveal_strlit("reason");
    reveal_strlit("attempt");
    reveal_strlit("attempts");
    reveal_strlit("lastError");
    reveal_strlit("connIndex");
    reveal_strlit("total");
    reveal_strlit("level");
    reveal_strlit("line");
    assert("protocol"@.len() != "port"@.len());
    assert("reason"@.len() != "attempt"@.len());
    assert("attempts"@.len() != "lastError"@.len());
    assert("connIndex"@.len() != "total"@.len());
    assert("level"@.len() != "line"@.len());
}

/// Every reason has a kind; an error comes with its message, and the age limit
/// under its own name among the others.
pub proof fn reasons_are_told_by_kind(reason: ShutdownReason, level: LogLevel)
    ensures
        ({
            let members = reason.document()->Object_0;
            &&& reason.document() is Object
            &&& members.contains_key("kind"@)
            &&& reason is UserRequested ==> members["kind"@] == Json::Text("userRequested"@)
                && members.dom() == set!["kind"@]
            &&& reason is ChildExited ==> members["kind"@] == Json::Text("childExited"@)
                && members.dom() == set!["kind"@]
            &&& reason is Timeout ==> members["kind"@] == Json::Text("other"@) && members["debug"@]
                == Json::Text("Timeout"@) && members.dom() == set!["kind"@, "debug"@]
            &&& reason matches ShutdownReason::Error(message) ==> members["kind"@] == Json::Text(
                "error"@,
            ) && members["message"@] == Json::Text(message@) && members.dom() == set![
                "kind"@,
                "message"@,
            ]
        }),
        level is Info ==> level.label() == "info"@,
        level is Warn ==> level.label() == "warn"@,
        level is Error ==> level.label() == "error"@,
{
    reveal_strlit("kind");
    reveal_strlit("debug");
    reveal_strlit("message");
    assert("kind"@.len() != "debug"@.len() && "kind"@.len() != "message"@.len());
}

/// Each of the known codes has its own name; all others share one.
pub proof fn kinds_have_their_names(code: u64)
    ensures
        ({
            let name = crate::error::meaning(code).camel_name();
            &&& code == 10429 ==> name == "rateLimited"@
            &&& code == 81053 ==> name == "dnsExists"@
            &&& code == 10000 || code == 10001 || code == 9109 ==> name == "authFailed"@
            &&& code == 1038 ==> name == "invalidToken"@
            &&& code != 10429 && code != 81053 && code != 10000 && code != 10001 && code != 9109
                && code != 1038 ==> name == "other"@
        }),
{
    crate::error::known_codes_have_their_meaning(code);
}

/// What is handed to JavaScript is the name of the event and the text of its
/// fields.
pub proof fn payloads_are_name_and_fields(event: Event, r: (&'static str, String))
    requires
        call_ensures(event_to_payload, (&event,), r),
    ensures
        r.0@ == event.name(),
        r.1@ == json::json_text(Json::Object(event.fields())),
        event is Cleaned ==> r.0@ == "cleaned"@,
        event is Restarted ==> r.0@ == "restarted"@,
        event is ShuttingDown ==> r.0@ == "shuttingDown"@,
        event is EdgeConnected ==> r.0@ == "edgeConnected"@,
{
}

} // verus!
