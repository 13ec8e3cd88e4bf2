//! The command line, once it has been split into its parts.

use vstd::prelude::*;
use vstd::string::*;

use crate::builder::DEFAULT_PORT;
use crate::error::Error;
use crate::protocol;
use crate::protocol::Protocol;
use crate::text;

verus! {

/// A subcommand.
#[derive(Debug, PartialEq, Eq)]
pub enum Command {
    /// Save, show or clear the Cloudflare API token.
    Key {
        /// Cloudflare API token (omitted to show status).
        token: Option<String>,
        /// Clear all saved credentials.
        clear: bool,
    },
    /// Switch the base domain (picks the matching zone).
    Domain {
        /// Domain name, e.g. `example.com`.
        domain: String,
    },
    /// List domains accessible with the current token.
    Domains,
    /// Remove dead tunnels, their DNS records and orphaned CNAMEs.
    Cleanup,
}

/// The arguments of `cfp`.
#[derive(Debug, PartialEq, Eq)]
pub struct Cli {
    /// First positional: protocol (`http`/`https`/`tcp`/`udp`/`ssh`) or a port.
    pub first: Option<String>,
    /// Local port to expose (used when the protocol is given first).
    pub port: Option<u16>,
    /// Subdomain to use, e.g. `-s myapp` for `myapp.example.com`.
    pub subdomain: Option<String>,
    /// The subcommand, when there is one.
    pub command: Option<Command>,
}

/// Normalized tunnel command arguments.
#[derive(Debug, PartialEq, Eq)]
pub struct TunnelArgs {
    /// Local protocol scheme.
    pub protocol: Protocol,
    /// Local port.
    pub port: u16,
    /// Subdomain, when one was given.
    pub subdomain: Option<String>,
}

impl Clone for TunnelArgs {
    fn clone(&self) -> (r: Self)
        ensures
            r == *self,
    {
        TunnelArgs {
            protocol: self.protocol,
            port: self.port,
            subdomain: self.subdomain.clone(),
        }
    }
}

/// The protocol that a first argument names, spelt exactly as it is written.
pub open spec fn named_protocol(first: Seq<char>) -> Option<Protocol> {
    if first == "http"@ {
        Some(Protocol::Http)
    } else if first == "https"@ {
        Some(Protocol::Https)
    } else if first == "tcp"@ {
        Some(Protocol::Tcp)
    } else if first == "udp"@ {
        Some(Protocol::Udp)
    } else if first == "ssh"@ {
        Some(Protocol::Ssh)
    } else {
        None
    }
}

fn protocol_named(first: &str) -> (r: Option<Protocol>)
    ensures
        r == named_protocol(first@),
{
    if text::same(first, "http") {
        Some(Protocol::Http)
    } else if text::same(first, "https") {
        Some(Protocol::Https)
    } else if text::same(first, "tcp") {
        Some(Protocol::Tcp)
    } else if text::same(first, "udp") {
        Some(Protocol::Udp)
    } else if text::same(first, "ssh") {
        Some(Protocol::Ssh)
    } else {
        None
    }
}

impl Cli {
    /// The first argument is neither a protocol nor a port.
    pub open spec fn is_unexpected(self) -> bool {
        self.first is Some && named_protocol(self.first->0@) is None && text::port_number(
            self.first->0@,
        ) is None
    }

    /// The protocol that the arguments ask for; `http` when they ask for none.
    pub open spec fn protocol_asked(self) -> Protocol {
        match self.first {
            Some(first) => match named_protocol(first@) {
                Some(protocol) => protocol,
                None => Protocol::Http,
            },
            None => Protocol::Http,
        }
    }

    /// The port that the arguments ask for. The second argument goes before the
    /// first.
    pub open spec fn port_asked(self) -> u16 {
        match self.port {
            Some(port) => port,
            None => match self.first {
                Some(first) => if named_protocol(first@) is Some {
                    DEFAULT_PORT
                } else {
                    text::port_number(first@)->0
                },
                None => DEFAULT_PORT,
            },
        }
    }

    /// Converts the raw arguments into tunnel arguments. Accepts both `cfp http
    /// 8080` and `cfp 8080`.
    pub fn to_tunnel_args(&self) -> (r: Result<TunnelArgs, Error>)
        ensures
            r is Ok <==> self.command is None && !self.is_unexpected(),
            r matches Ok(args) ==> args == (TunnelArgs {
                protocol: self.protocol_asked(),
                port: self.port_asked(),
                subdomain: self.subdomain,
            }),
            r matches Err(e) ==> e matches Error::Other(message) && message@ == (
            if self.command is Some {
                "subcommand handled separately"@
            } else {
                "unexpected argument \""@ + self.first->0@
                    + "\": expected a protocol (http, https, tcp, udp, ssh) or a port"@
            }),
    {
        if self.command.is_some() {
            return Err(Error::Other("subcommand handled separately".to_owned()));
        }
        let mut protocol = Protocol::Http;
        let mut port: Option<u16> = None;
        if let Some(first) = &self.first {
            match protocol_named(first.as_str()) {
                Some(named) => {
                    protocol = named;
                },
                None => match text::parse_port(first.as_str()) {
                    Some(value) => {
                        port = Some(value);
                    },
                    None => {
                        let mut message = "unexpected argument \"".to_owned();
                        message.append(first.as_str());
                        message.append(
                            "\": expected a protocol (http, https, tcp, udp, ssh) or a port",
                        );
                        return Err(Error::Other(message));
                    },
                },
            }
        }
        if let Some(value) = self.port {
            port = Some(value);
        }
        let port = match port {
            Some(value) => value,
            None => DEFAULT_PORT,
        };
        Ok(TunnelArgs { protocol, port, subdomain: self.subdomain.clone() })
    }
}

/// The canonical name of every protocol is taken as that protocol.
pub proof fn protocol_names_are_arguments(p: Protocol)
    ensures
        named_protocol(p.name()) == Some(p),
{
    protocol::names_are_distinct(p, Protocol::Http);
    protocol::names_are_distinct(p, Protocol::Https);
    protocol::names_are_distinct(p, Protocol::Tcp);
    protocol::names_are_distinct(p, Protocol::Udp);
    protocol::names_are_distinct(p, Protocol::Ssh);
}

/// Any port on its own is taken as that port, under the default protocol.
pub proof fn bare_ports_are_taken(cli: Cli, port: u16)
    requires
        cli.first is Some,
        cli.first->0@ == text::decimal(port as nat),
        cli.port is None,
    ensures
        !cli.is_unexpected(),
        cli.port_asked() == port,
        cli.protocol_asked() == Protocol::Http,
{
    text::ports_are_read_back(port);
    reveal_strlit("http");
    reveal_strlit("https");
    reveal_strlit("tcp");
    reveal_strlit("udp");
    reveal_strlit("ssh");
    assert(text::is_digit(cli.first->0@[0]));
}

/// A port that is given as the second argument is the port of the tunnel,
/// whatever the first argument is: no protocol takes it away, and no number in
/// its place overrides it.
pub proof fn a_second_argument_is_the_port(cli: Cli, other: Cli, port: u16)
    requires
        cli.port == Some(port),
        other.port == Some(port),
    ensures
        cli.port_asked() == port,
        cli.port_asked() == other.port_asked(),
{
}

/// Without a second argument the port is the number that the first one is, and
/// 8080 when the first one is a protocol or there is none.
pub proof fn a_single_argument_may_be_the_port(cli: Cli, port: u16)
    requires
        cli.port is None,
    ensures
        cli.first is None ==> cli.port_asked() == 8080,
        cli.first matches Some(first) ==> (first@ == "http"@ || first@ == "https"@ || first@
            == "tcp"@ || first@ == "udp"@ || first@ == "ssh"@ ==> cli.port_asked() == 8080),
        cli.first matches Some(first) ==> (first@ == text::decimal(port as nat)
            ==> cli.port_asked() == port),
{
    if cli.first is Some && cli.first->0@ == text::decimal(port as nat) {
        bare_ports_are_taken(cli, port);
    }
}

/// The protocol is the one that the first argument spells, to the letter; any
/// other first argument, and none at all, leaves it at `http`. The second
/// argument, the subdomain and the command have no say in it.
pub proof fn the_first_argument_is_the_protocol(cli: Cli)
    ensures
        cli.protocol_asked() == Protocol::Https <==> cli.first is Some && cli.first->0@
            == "https"@,
        cli.protocol_asked() == Protocol::Tcp <==> cli.first is Some && cli.first->0@ == "tcp"@,
        cli.protocol_asked() == Protocol::Udp <==> cli.first is Some && cli.first->0@ == "udp"@,
        cli.protocol_asked() == Protocol::Ssh <==> cli.first is Some && cli.first->0@ == "ssh"@,
{
    protocol_names_are_arguments(Protocol::Http);
    protocol_names_are_arguments(Protocol::Https);
    protocol_names_are_arguments(Protocol::Tcp);
    protocol_names_are_arguments(Protocol::Udp);
    protocol_names_are_arguments(Protocol::Ssh);
}

/// A first argument is refused exactly if it is neither one of the five
/// protocols nor a port; the arguments after it have no say in that.
pub proof fn other_arguments_are_refused(cli: Cli)
    ensures
        cli.is_unexpected() <==> cli.first is Some && cli.first->0@ != "http"@ && cli.first->0@
            != "https"@ && cli.first->0@ != "tcp"@ && cli.first->0@ != "udp"@ && cli.first->0@
            != "ssh"@ && text::port_number(cli.first->0@) is None,
{
    protocol_names_are_arguments(Protocol::Http);
    protocol_names_are_arguments(Protocol::Https);
    protocol_names_are_arguments(Protocol::Tcp);
    protocol_names_are_arguments(Protocol::Udp);
    protocol_names_are_arguments(Protocol::Ssh);
}

/// The tunnel that the arguments ask for has the port that was given second, for
/// every protocol alike. Without one it has the number that was given first, and
/// 8080 after a protocol or after nothing.
pub proof fn the_port_is_not_lost(cli: Cli, port: u16, r: Result<TunnelArgs, Error>)
    requires
        call_ensures(Cli::to_tunnel_args, (&cli,), r),
        r is Ok,
    ensures
        ({
            let args = r->Ok_0;
            let first = cli.first->0@;
            &&& cli.port == Some(port) ==> args.port == port
            &&& cli.port is None && cli.first is None ==> args.port == 8080
            &&& cli.port is None && cli.first is Some && (first == "http"@ || first == "https"@
                || first == "tcp"@ || first == "udp"@ || first == "ssh"@) ==> args.port == 8080
            &&& cli.port is None && cli.first is Some && first == text::decimal(port as nat)
                ==> args.port == port
        }),
{
    if cli.port is None {
        a_single_argument_may_be_the_port(cli, port);
    }
}

/// The protocol is the first argument, to the letter, whether a port follows or
/// not; the subdomain is handed on as it is.
pub proof fn the_protocol_is_not_lost(cli: Cli, r: Result<TunnelArgs, Error>)
    requires
        call_ensures(Cli::to_tunnel_args, (&cli,), r),
        r is Ok,
    ensures
        ({
            let args = r->Ok_0;
            let first = cli.first->0@;
            &&& args.subdomain == cli.subdomain
            &&& args.protocol == Protocol::Https <==> cli.first is Some && first == "https"@
            &&& args.protocol == Protocol::Tcp <==> cli.first is Some && first == "tcp"@
            &&& args.protocol == Protocol::Udp <==> cli.first is Some && first == "udp"@
            &&& args.protocol == Protocol::Ssh <==> cli.first is Some && first == "ssh"@
        }),
{
    the_first_argument_is_the_protocol(cli);
}

/// Two lines of arguments that differ in the protocol alone ask for the same port
/// and the same subdomain.
pub proof fn protocols_leave_the_port_alone(
    a: Cli,
    b: Cli,
    ra: Result<TunnelArgs, Error>,
    rb: Result<TunnelArgs, Error>,
)
    requires
        call_ensures(Cli::to_tunnel_args, (&a,), ra),
        call_ensures(Cli::to_tunnel_args, (&b,), rb),
        a.first is Some && (a.first->0@ == "http"@ || a.first->0@ == "https"@ || a.first->0@
            == "tcp"@ || a.first->0@ == "udp"@ || a.first->0@ == "ssh"@),
        b.first is Some && (b.first->0@ == "http"@ || b.first->0@ == "https"@ || b.first->0@
            == "tcp"@ || b.first->0@ == "udp"@ || b.first->0@ == "ssh"@),
        a.port == b.port,
        a.subdomain == b.subdomain,
        a.command is None,
        b.command is None,
    ensures
        ra is Ok,
        rb is Ok,
        ra->Ok_0.port == rb->Ok_0.port,
        ra->Ok_0.subdomain == rb->Ok_0.subdomain,
{
    other_arguments_are_refused(a);
    other_arguments_are_refused(b);
    if a.port is None {
        a_single_argument_may_be_the_port(a, 0);
        a_single_argument_may_be_the_port(b, 0);
    }
}

} // verus!
