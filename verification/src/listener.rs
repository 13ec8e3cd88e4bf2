//! What JavaScript asks for and holds: the options of a connection, and the
//! listener that it gets back.

use vstd::prelude::*;
use vstd::string::*;

use crate::builder;
use crate::builder::TunnelBuilder;
use crate::codes;
use crate::codes::{from_sdk_error, invalid_arg, FixedError, Status};
use crate::error::Error;
use crate::live::LiveTunnel;
use crate::protocol;
use crate::protocol::Protocol;
use crate::text;

verus! {

/// Options of a connection.
#[derive(Debug, PartialEq, Eq)]
pub struct ConnectOptions {
    /// Cloudflare API token.
    pub token: String,
    /// Base domain; discovered when omitted or empty.
    pub domain: Option<String>,
    /// Local service protocol; `http` when omitted.
    pub protocol: Option<String>,
    /// Local port; 8080 when omitted.
    pub port: Option<u32>,
    /// Desired subdomain; a random one when omitted or empty.
    pub subdomain: Option<String>,
    /// Whether to respawn `cloudflared` after a crash; `false` when omitted.
    pub auto_restart: Option<bool>,
    /// Path to a `cloudflared` binary; searched for when omitted or empty.
    pub cloudflared_path: Option<String>,
    /// GitHub mirror prefix; an empty one disables mirroring.
    pub github_proxy: Option<String>,
}

/// The text of a port that is out of range.
pub open spec fn bad_port(port: u32) -> Seq<char> {
    "port "@ + text::decimal(port as nat) + " is out of range"@
}

/// Takes a number from JavaScript as a port; 8080 when there is none.
pub fn port_u16(value: Option<u32>) -> (r: Result<u16, String>)
    ensures
        match value {
            None => r == Ok::<u16, String>(8080u16),
            Some(p) => if p <= 65535 {
                r == Ok::<u16, String>(p as u16)
            } else {
                r matches Err(message) && message@ == bad_port(p)
            },
        },
{
    match value {
        None => Ok(8080),
        Some(p) => {
            if p <= 65535 {
                return Ok(p as u16);
            }
            let mut message = "port ".to_owned();
            message.append(text::decimal_text(p as u64).as_str());
            message.append(" is out of range");
            Err(message)
        },
    }
}

/// An option that counts only when it is not empty.
pub open spec fn filled(option: Option<String>) -> Option<Seq<char>> {
    match option {
        Some(s) => if s@.len() > 0 {
            Some(s@)
        } else {
            None
        },
        None => None,
    }
}

/// What an option holds.
pub open spec fn content(option: Option<String>) -> Option<Seq<char>> {
    match option {
        Some(s) => Some(s@),
        None => None,
    }
}

impl ConnectOptions {
    /// The protocol asked for, by name.
    pub open spec fn protocol_name(self) -> Seq<char> {
        match self.protocol {
            Some(name) => name@,
            None => "http"@,
        }
    }

    /// The port asked for.
    pub open spec fn port_asked(self) -> u32 {
        match self.port {
            Some(port) => port,
            None => 8080,
        }
    }

    /// This protocol has the name asked for, apart from the case of its letters.
    pub open spec fn asks_for(self, p: Protocol) -> bool {
        text::lower(self.protocol_name()) == p.name()
    }

    /// The protocol asked for.
    pub fn protocol_enum(&self) -> (r: Result<Protocol, &'static str>)
        ensures
            match r {
                Ok(p) => self.asks_for(p),
                Err(message) => (forall|p: Protocol| !self.asks_for(p)) && message@
                    == "invalid protocol — supported: http, https, tcp, udp, ssh"@,
            },
    {
        let parsed = match &self.protocol {
            Some(name) => Protocol::parse(name.as_str()),
            None => Protocol::parse("http"),
        };
        match parsed {
            Ok(p) => Ok(p),
            Err(_) => Err("invalid protocol — supported: http, https, tcp, udp, ssh"),
        }
    }
}

/// The callbacks of a listener, in the order in which they were registered.
#[derive(Debug, PartialEq, Eq)]
pub struct Callback {
    /// The event that it is for.
    pub event: String,
    /// Which callback it is.
    pub id: u64,
}

/// The callbacks for one event, in order.
pub open spec fn registered(callbacks: Seq<Callback>, event: Seq<char>) -> Seq<u64>
    decreases callbacks.len(),
{
    if callbacks.len() == 0 {
        seq![]
    } else {
        let before = registered(callbacks.drop_last(), event);
        if callbacks.last().event@ == event {
            before.push(callbacks.last().id)
        } else {
            before
        }
    }
}

/// A live tunnel, as JavaScript sees it.
#[derive(Debug, PartialEq, Eq)]
pub struct Listener {
    /// The full public URL.
    pub url: String,
    /// The public host name.
    pub full_name: String,
    /// The subdomain part.
    pub subdomain: String,
    /// Whether it has been closed.
    pub closed: bool,
    /// All registered callbacks.
    pub callbacks: Vec<Callback>,
}

impl Listener {
    /// The tunnel that the options ask for, ready to be started. A protocol or
    /// a port that cannot be is an invalid argument; the protocol is looked at
    /// first.
    pub fn start(options: ConnectOptions) -> (r: Result<TunnelBuilder, FixedError>)
        ensures
            match r {
                Ok(b) => {
                    &&& options.asks_for(b.protocol)
                    &&& b.port == options.port_asked()
                    &&& builder::holds(b.token, options.token@)
                    &&& b.auto_restart == (options.auto_restart == Some(true))
                    &&& content(b.domain) == filled(options.domain)
                    &&& content(b.subdomain) == filled(options.subdomain)
                    &&& content(b.binary_path) == filled(options.cloudflared_path)
                    &&& content(b.github_proxy) == content(options.github_proxy)
                    &&& b.account_id is None
                    &&& b.zone_id is None
                    &&& b.config_dir is None
                },
                Err(e) => {
                    &&& e.status == Status::InvalidArg
                    &&& if forall|p: Protocol| !options.asks_for(p) {
                        e.reason@ == "invalid protocol — supported: http, https, tcp, udp, ssh"@
                    } else {
                        options.port_asked() > 65535 && e.reason@ == bad_port(options.port_asked())
                    }
                },
            },
    {
        let protocol = match options.protocol_enum() {
            Ok(p) => p,
            Err(message) => {
                return Err(invalid_arg(message));
            },
        };
        let port = match port_u16(options.port) {
            Ok(p) => p,
            Err(message) => {
                assert(options.asks_for(protocol));
                return Err(invalid_arg(message.as_str()));
            },
        };
        let auto_restart = match options.auto_restart {
            Some(wanted) => wanted,
            None => false,
        };
        let mut b = TunnelBuilder::new().token(options.token.as_str()).protocol(protocol).port(
            port,
        ).auto_restart(auto_restart);
        if let Some(domain) = &options.domain {
            if !domain.as_str().is_empty() {
                b = b.domain(domain.as_str());
            }
        }
        if let Some(subdomain) = &options.subdomain {
            if !subdomain.as_str().is_empty() {
                b = b.subdomain(subdomain.as_str());
            }
        }
        if let Some(path) = &options.cloudflared_path {
            if !path.as_str().is_empty() {
                b = b.cloudflared_path(path.as_str());
            }
        }
        if let Some(proxy) = &options.github_proxy {
            b = b.github_proxy(proxy.as_str());
        }
        Ok(b)
    }

    /// A listener for a tunnel that is live.
    pub fn new(url: &str, full_name: &str, subdomain: &str) -> (r: Self)
        ensures
            r.url@ == url@,
            r.full_name@ == full_name@,
            r.subdomain@ == subdomain@,
            !r.closed,
            r.callbacks@.len() == 0,
    {
        Listener {
            url: url.to_owned(),
            full_name: full_name.to_owned(),
            subdomain: subdomain.to_owned(),
            closed: false,
            callbacks: Vec::new(),
        }
    }

    /// The full public URL of the tunnel (always HTTPS).
    pub fn url(&self) -> (r: String)
        ensures
            r == self.url,
    {
        self.url.clone()
    }

    /// The public hostname (`myapp.example.com`).
    pub fn full_name(&self) -> (r: String)
        ensures
            r == self.full_name,
    {
        self.full_name.clone()
    }

    /// Just the subdomain part (`myapp`).
    pub fn subdomain(&self) -> (r: String)
        ensures
            r == self.subdomain,
    {
        self.subdomain.clone()
    }

    /// Registers a callback for a single named event, after those that are
    /// there.
    pub fn on(&mut self, event: &str, id: u64)
        ensures
            *final(self) == (Listener { callbacks: final(self).callbacks, ..*old(self) }),
            forall|name: Seq<char>| #[trigger]
                registered(final(self).callbacks@, name) == if name == event@ {
                    registered(old(self).callbacks@, name).push(id)
                } else {
                    registered(old(self).callbacks@, name)
                },
    {
        self.callbacks.push(Callback { event: event.to_owned(), id });
        assert(self.callbacks@.drop_last() =~= old(self).callbacks@);
    }

    /// The callbacks to call for an event, in order.
    pub fn callbacks_for(&self, event: &str) -> (r: Vec<u64>)
        ensures
            r@ == registered(self.callbacks@, event@),
    {
        let mut r: Vec<u64> = Vec::new();
        let mut i: usize = 0;
        assert(self.callbacks@.take(0) =~= seq![]);
        while i < self.callbacks.len()
            invariant
                i <= self.callbacks@.len(),
                r@ == registered(self.callbacks@.take(i as int), event@),
            decreases self.callbacks@.len() - i,
        {
            assert(self.callbacks@.take(i + 1).drop_last() =~= self.callbacks@.take(i as int));
            if text::same(self.callbacks[i].event.as_str(), event) {
                r.push(self.callbacks[i].id);
            }
            i = i + 1;
        }
        assert(self.callbacks@.take(i as int) =~= self.callbacks@);
        r
    }

    /// Closes the tunnel: a call that is granted stops it. Any further call is
    /// told that the tunnel is already shut down.
    pub fn close(&mut self, tunnel: &mut LiveTunnel) -> (r: Result<(), FixedError>)
        ensures
            *final(self) == (Listener { closed: true, ..*old(self) }),
            *final(tunnel) == if old(self).closed {
                *old(tunnel)
            } else {
                old(tunnel).stopping()
            },
            r is Ok <==> !old(self).closed && !old(tunnel).handle.stopped,
            r matches Err(e) ==> e.status == Status::GenericFailure && e.reason@ == codes::coded(
                "ALREADY_SHUT_DOWN"@,
                "tunnel already shut down"@,
            ),
    {
        if self.closed {
            return Err(from_sdk_error(&Error::AlreadyShutDown));
        }
        self.closed = true;
        match tunnel.stop() {
            Ok(()) => Ok(()),
            Err(e) => Err(from_sdk_error(&e)),
        }
    }
}

/// Every protocol can be asked for by its name, in any case; which one it is
/// does not depend on anything else.
pub proof fn protocols_are_asked_for_by_name(options: ConnectOptions, a: Protocol, b: Protocol)
    requires
        options.asks_for(a),
        options.asks_for(b),
    ensures
        a == b,
{
    protocol::names_are_distinct(a, b);
}

/// A number from JavaScript is taken as a port exactly if it fits, and as itself;
/// none stands for 8080.
pub proof fn numbers_that_fit_are_ports(n: u32, r: Result<u16, String>, none: Result<u16, String>)
    requires
        call_ensures(port_u16, (Some(n),), r),
        call_ensures(port_u16, (None::<u32>,), none),
    ensures
        r is Ok <==> n < 65536,
        r is Ok ==> r->Ok_0 as int == n as int,
        r is Err ==> r->Err_0@ == "port "@ + text::decimal(n as nat) + " is out of range"@,
        none == Ok::<u16, String>(8080u16),
{
}

/// The tunnel that the options ask for has what they say: texts that are empty
/// count as left out, except for the mirror, where an empty one has a meaning of
/// its own.
pub proof fn options_are_carried_over(options: ConnectOptions, r: Result<TunnelBuilder, FixedError>)
    requires
        call_ensures(Listener::start, (options,), r),
        r is Ok,
    ensures
        ({
            let b = r->Ok_0;
            &&& b.token is Some && b.token->0@ == options.token@
            &&& options.port is None ==> b.port == 8080
            &&& options.port matches Some(port) ==> b.port as int == port as int
            &&& b.auto_restart <==> options.auto_restart == Some(true)
            &&& b.domain is Some <==> options.domain is Some && options.domain->0@.len() > 0
            &&& b.domain is Some ==> b.domain->0@ == options.domain->0@
            &&& b.subdomain is Some <==> options.subdomain is Some && options.subdomain->0@.len()
                > 0
            &&& b.subdomain is Some ==> b.subdomain->0@ == options.subdomain->0@
            &&& b.binary_path is Some <==> options.cloudflared_path is Some
                && options.cloudflared_path->0@.len() > 0
            &&& b.binary_path is Some ==> b.binary_path->0@ == options.cloudflared_path->0@
            &&& b.github_proxy is Some <==> options.github_proxy is Some
            &&& b.github_proxy is Some ==> b.github_proxy->0@ == options.github_proxy->0@
            &&& b.account_id is None && b.zone_id is None && b.config_dir is None
        }),
{
    assert(content(r->Ok_0.domain) == filled(options.domain));
    assert(content(r->Ok_0.subdomain) == filled(options.subdomain));
    assert(content(r->Ok_0.binary_path) == filled(options.cloudflared_path));
    assert(content(r->Ok_0.github_proxy) == content(options.github_proxy));
}

/// The protocol is the one that is named, in any case; `http` is for those who
/// name none. A name that is none, and a number that is no port, are refused, and
/// nothing else is.
pub proof fn options_are_refused_for_a_reason(
    options: ConnectOptions,
    r: Result<TunnelBuilder, FixedError>,
)
    requires
        call_ensures(Listener::start, (options,), r),
    ensures
        ({
            let name = text::lower(
                if options.protocol is Some {
                    options.protocol->0@
                } else {
                    "http"@
                },
            );
            let known = name == "http"@ || name == "https"@ || name == "tcp"@ || name == "udp"@
                || name == "ssh"@;
            let fits = options.port is None || options.port->0 < 65536;
            &&& r is Ok ==> known && fits
            &&& r is Ok ==> r->Ok_0.protocol.name() == name
            &&& r is Ok && options.protocol is None ==> r->Ok_0.protocol == Protocol::Http
            &&& r is Err ==> !known || !fits
            &&& r is Err ==> r->Err_0.status == Status::InvalidArg
            &&& !known ==> r->Err_0.reason@
                == "invalid protocol — supported: http, https, tcp, udp, ssh"@
            &&& known && !fits ==> r->Err_0.reason@ == "port "@ + text::decimal(
                options.port->0 as nat,
            ) + " is out of range"@
        }),
{
    let name = text::lower(options.protocol_name());
    assert(Protocol::Http.name() == "http"@);
    assert(Protocol::Https.name() == "https"@);
    assert(Protocol::Tcp.name() == "tcp"@);
    assert(Protocol::Udp.name() == "udp"@);
    assert(Protocol::Ssh.name() == "ssh"@);
    assert(forall|p: Protocol| #[trigger] options.asks_for(p) <==> name == p.name());
    if name == "http"@ {
        assert(options.asks_for(Protocol::Http));
    } else if name == "https"@ {
        assert(options.asks_for(Protocol::Https));
    } else if name == "tcp"@ {
        assert(options.asks_for(Protocol::Tcp));
    } else if name == "udp"@ {
        assert(options.asks_for(Protocol::Udp));
    } else if name == "ssh"@ {
        assert(options.asks_for(Protocol::Ssh));
    }
    if r is Ok && options.protocol is None {
        protocol::names_are_distinct(Protocol::Http, r->Ok_0.protocol);
    }
}

/// A callback is called for its own event, after those that were there before it,
/// and for no other.
pub proof fn callbacks_hear_their_event(
    listener: &mut Listener,
    event: &str,
    id: u64,
    other: &str,
    before: Vec<u64>,
    after: Vec<u64>,
    unheard: Vec<u64>,
    still_unheard: Vec<u64>,
)
    requires
        call_ensures(Listener::on, (listener, event, id), ()),
        other@ != event@,
        call_ensures(Listener::callbacks_for, (old(listener), event), before),
        call_ensures(Listener::callbacks_for, (final(listener), event), after),
        call_ensures(Listener::callbacks_for, (old(listener), other), unheard),
        call_ensures(Listener::callbacks_for, (final(listener), other), still_unheard),
    ensures
        after@ == before@.push(id),
        still_unheard@ == unheard@,
        final(listener).closed == old(listener).closed,
        final(listener).url == old(listener).url,
{
}

/// A listener without callbacks has none to call.
pub proof fn new_listeners_are_silent(
    url: &str,
    full_name: &str,
    subdomain: &str,
    listener: Listener,
    event: &str,
    r: Vec<u64>,
)
    requires
        call_ensures(Listener::new, (url, full_name, subdomain), listener),
        call_ensures(Listener::callbacks_for, (&listener, event), r),
    ensures
        r@.len() == 0,
        !listener.closed,
        listener.url@ == url@,
        listener.full_name@ == full_name@,
        listener.subdomain@ == subdomain@,
{
}

/// A listener is closed once. The first time it stops its tunnel, and is granted
/// unless the tunnel had been stopped already; any other time it is refused and
/// does nothing.
pub proof fn listeners_are_closed_once(
    listener: &mut Listener,
    tunnel: &mut LiveTunnel,
    r: Result<(), FixedError>,
)
    requires
        call_ensures(Listener::close, (listener, tunnel), r),
    ensures
        final(listener).closed,
        r is Ok <==> !old(listener).closed && !old(tunnel).handle.stopped,
        !old(listener).closed ==> final(tunnel).handle.stopped,
        old(listener).closed ==> *final(tunnel) == *old(tunnel),
        final(tunnel).session == old(tunnel).session,
        final(listener).callbacks == old(listener).callbacks,
        r is Err ==> r->Err_0.status == Status::GenericFailure && codes::code_in(r->Err_0.reason@)
            == Some("ALREADY_SHUT_DOWN"@),
{
    codes::every_error_carries_its_code(Error::AlreadyShutDown);
}

} // verus!
