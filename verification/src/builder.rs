//! Configuring a tunnel before it is started.
//!
//! Only the token is strictly required. Account, zone and domain are filled in
//! from the zones that the token can access: the one that the domain names, or
//! the only one there is.

use vstd::prelude::*;
use vstd::string::*;

use crate::client;
use crate::client::{find_zone, Zone};
use crate::error::Error;
use crate::plan::SessionConfig;
use crate::protocol::Protocol;
use crate::text;

verus! {

/// Default local port when none is supplied.
pub const DEFAULT_PORT: u16 = 8080;

/// Configures a tunnel. Construct with [`TunnelBuilder::new`], chain
/// configuration methods, then call [`TunnelBuilder::start`].
#[derive(Debug, PartialEq, Eq)]
pub struct TunnelBuilder {
    /// Cloudflare API token.
    pub token: Option<String>,
    /// Cloudflare account.
    pub account_id: Option<String>,
    /// Cloudflare zone.
    pub zone_id: Option<String>,
    /// Base domain.
    pub domain: Option<String>,
    /// Local protocol scheme.
    pub protocol: Protocol,
    /// Local port.
    pub port: u16,
    /// Subdomain.
    pub subdomain: Option<String>,
    /// Path of a `cloudflared` binary to use.
    pub binary_path: Option<String>,
    /// Directory for managed files.
    pub config_dir: Option<String>,
    /// GitHub mirror prefix for downloads.
    pub github_proxy: Option<String>,
    /// Whether to respawn `cloudflared` after a crash.
    pub auto_restart: bool,
}

impl Clone for TunnelBuilder {
    fn clone(&self) -> (r: Self)
        ensures
            r == *self,
    {
        TunnelBuilder {
            token: self.token.clone(),
            account_id: self.account_id.clone(),
            zone_id: self.zone_id.clone(),
            domain: self.domain.clone(),
            protocol: self.protocol,
            port: self.port,
            subdomain: self.subdomain.clone(),
            binary_path: self.binary_path.clone(),
            config_dir: self.config_dir.clone(),
            github_proxy: self.github_proxy.clone(),
            auto_restart: self.auto_restart,
        }
    }
}

impl Default for TunnelBuilder {
    fn default() -> (r: Self)
        ensures
            r == TunnelBuilder::defaults(),
    {
        TunnelBuilder::new()
    }
}

/// This option holds exactly the given text.
pub open spec fn holds(option: Option<String>, text: Seq<char>) -> bool {
    option is Some && option->0@ == text
}

impl TunnelBuilder {
    /// HTTP on port 8080, with everything else left open.
    pub open spec fn defaults() -> TunnelBuilder {
        TunnelBuilder {
            token: None,
            account_id: None,
            zone_id: None,
            domain: None,
            protocol: Protocol::Http,
            port: DEFAULT_PORT,
            subdomain: None,
            binary_path: None,
            config_dir: None,
            github_proxy: None,
            auto_restart: false,
        }
    }

    /// Creates a builder with sensible defaults: HTTP protocol on port 8080 and
    /// a randomly generated subdomain.
    pub fn new() -> (r: Self)
        ensures
            r == TunnelBuilder::defaults(),
    {
        TunnelBuilder {
            token: None,
            account_id: None,
            zone_id: None,
            domain: None,
            protocol: Protocol::Http,
            port: DEFAULT_PORT,
            subdomain: None,
            binary_path: None,
            config_dir: None,
            github_proxy: None,
            auto_restart: false,
        }
    }

    /// Sets the Cloudflare API token.
    pub fn token(self, token: &str) -> (r: Self)
        ensures
            holds(r.token, token@),
            r == (TunnelBuilder { token: r.token, ..self }),
    {
        TunnelBuilder { token: Some(token.to_owned()), ..self }
    }

    /// Sets the base domain (e.g. `example.com`).
    pub fn domain(self, domain: &str) -> (r: Self)
        ensures
            holds(r.domain, domain@),
            r == (TunnelBuilder { domain: r.domain, ..self }),
    {
        TunnelBuilder { domain: Some(domain.to_owned()), ..self }
    }

    /// Sets the Cloudflare account ID.
    pub fn account(self, account_id: &str) -> (r: Self)
        ensures
            holds(r.account_id, account_id@),
            r == (TunnelBuilder { account_id: r.account_id, ..self }),
    {
        TunnelBuilder { account_id: Some(account_id.to_owned()), ..self }
    }

    /// Sets the Cloudflare zone ID for the base domain.
    pub fn zone(self, zone_id: &str) -> (r: Self)
        ensures
            holds(r.zone_id, zone_id@),
            r == (TunnelBuilder { zone_id: r.zone_id, ..self }),
    {
        TunnelBuilder { zone_id: Some(zone_id.to_owned()), ..self }
    }

    /// Sets the local service protocol.
    pub fn protocol(self, protocol: Protocol) -> (r: Self)
        ensures
            r == (TunnelBuilder { protocol, ..self }),
    {
        TunnelBuilder { protocol, ..self }
    }

    /// Sets the local port to expose.
    pub fn port(self, port: u16) -> (r: Self)
        ensures
            r == (TunnelBuilder { port, ..self }),
    {
        TunnelBuilder { port, ..self }
    }

    /// Sets a specific subdomain. If unset, a random one is generated.
    pub fn subdomain(self, subdomain: &str) -> (r: Self)
        ensures
            holds(r.subdomain, subdomain@),
            r == (TunnelBuilder { subdomain: r.subdomain, ..self }),
    {
        TunnelBuilder { subdomain: Some(subdomain.to_owned()), ..self }
    }

    /// Uses a pre-installed `cloudflared` binary at this exact path.
    pub fn cloudflared_path(self, path: &str) -> (r: Self)
        ensures
            holds(r.binary_path, path@),
            r == (TunnelBuilder { binary_path: r.binary_path, ..self }),
    {
        TunnelBuilder { binary_path: Some(path.to_owned()), ..self }
    }

    /// Sets the root directory for managed files. Defaults to `~/.cfp`.
    pub fn config_dir(self, dir: &str) -> (r: Self)
        ensures
            holds(r.config_dir, dir@),
            r == (TunnelBuilder { config_dir: r.config_dir, ..self }),
    {
        TunnelBuilder { config_dir: Some(dir.to_owned()), ..self }
    }

    /// Sets the GitHub mirror prefix used when downloading `cloudflared`. Pass
    /// an empty string to disable mirroring.
    pub fn github_proxy(self, proxy: &str) -> (r: Self)
        ensures
            holds(r.github_proxy, proxy@),
            r == (TunnelBuilder { github_proxy: r.github_proxy, ..self }),
    {
        TunnelBuilder { github_proxy: Some(proxy.to_owned()), ..self }
    }

    /// Sets whether `cloudflared` is respawned on the same URL after a crash.
    pub fn auto_restart(self, auto_restart: bool) -> (r: Self)
        ensures
            r == (TunnelBuilder { auto_restart, ..self }),
    {
        TunnelBuilder { auto_restart, ..self }
    }

    /// Validates that all required credentials are present: only the token is.
    pub fn validate(&self) -> (r: Result<(), Error>)
        ensures
            r is Ok <==> self.token is Some,
            r matches Err(e) ==> e matches Error::MissingCredential(what) && what@
                == "Cloudflare API token"@,
    {
        if self.token.is_none() {
            return Err(Error::MissingCredential("Cloudflare API token"));
        }
        Ok(())
    }

    /// Settles everything that can be settled without asking Cloudflare. A
    /// subdomain that was given is taken in lower case; an empty one counts as
    /// none.
    pub fn start(self) -> (r: Result<Launch, Error>)
        ensures
            self.token is None ==> (r matches Err(Error::MissingCredential(what)) && what@
                == "Cloudflare API token"@),
            self.token is Some ==> match r {
                Err(e) => zone_refused(self.account_id, self.zone_id, self.domain) == Some(
                    e.described(),
                ) && e is Other,
                Ok(launch) => {
                    &&& zone_refused(self.account_id, self.zone_id, self.domain) is None
                    &&& Some(launch.token) == self.token
                    &&& launch.zone == zone_choice(self.account_id, self.zone_id, self.domain)
                    &&& match self.subdomain {
                        Some(name) => if name@.len() > 0 {
                            holds(launch.subdomain, text::lower(name@))
                        } else {
                            launch.subdomain is None
                        },
                        None => launch.subdomain is None,
                    }
                    &&& launch.protocol == self.protocol
                    &&& launch.port == self.port
                    &&& launch.auto_restart == self.auto_restart
                    &&& launch.binary_path == self.binary_path
                    &&& launch.config_dir == self.config_dir
                    &&& launch.github_proxy == self.github_proxy
                },
            },
    {
        let token = match self.token {
            Some(token) => token,
            None => {
                return Err(Error::MissingCredential("Cloudflare API token"));
            },
        };
        let zone = match resolve_zone(self.account_id, self.zone_id, self.domain) {
            Ok(zone) => zone,
            Err(e) => {
                return Err(e);
            },
        };
        let subdomain = match self.subdomain {
            Some(name) => if name.as_str().is_empty() {
                None
            } else {
                Some(text::lowercase(name.as_str()))
            },
            None => None,
        };
        Ok(
            Launch {
                token,
                zone,
                subdomain,
                protocol: self.protocol,
                port: self.port,
                auto_restart: self.auto_restart,
                binary_path: self.binary_path,
                config_dir: self.config_dir,
                github_proxy: self.github_proxy,
            },
        )
    }
}

/// A tunnel that is about to be started.
#[derive(Debug, PartialEq, Eq)]
pub struct Launch {
    /// Cloudflare API token.
    pub token: String,
    /// The zone, or how to find it.
    pub zone: ZoneChoice,
    /// The subdomain, when one was given.
    pub subdomain: Option<String>,
    /// Local protocol scheme.
    pub protocol: Protocol,
    /// Local port.
    pub port: u16,
    /// Whether to respawn `cloudflared` after a crash.
    pub auto_restart: bool,
    /// Path of a `cloudflared` binary to use.
    pub binary_path: Option<String>,
    /// Directory for managed files.
    pub config_dir: Option<String>,
    /// GitHub mirror prefix for downloads.
    pub github_proxy: Option<String>,
}

impl Launch {
    /// The session to set up, once the zone is known. `generated` is the name
    /// to use when no subdomain was given.
    pub fn session(self, zone: ResolvedZone, generated: String) -> (r: SessionConfig)
        ensures
            r == (SessionConfig {
                account_id: zone.account_id,
                zone_id: zone.zone_id,
                domain: zone.domain,
                protocol: self.protocol,
                port: self.port,
                subdomain: match self.subdomain {
                    Some(name) => name,
                    None => generated,
                },
                auto_restart: self.auto_restart,
            }),
    {
        let subdomain = match self.subdomain {
            Some(name) => name,
            None => generated,
        };
        SessionConfig {
            account_id: zone.account_id,
            zone_id: zone.zone_id,
            domain: zone.domain,
            protocol: self.protocol,
            port: self.port,
            subdomain,
            auto_restart: self.auto_restart,
        }
    }
}

/// A zone with its account and domain.
#[derive(Debug, PartialEq, Eq)]
pub struct ResolvedZone {
    /// Cloudflare account.
    pub account_id: String,
    /// Cloudflare zone.
    pub zone_id: String,
    /// Base domain.
    pub domain: String,
}

/// How the zone of a tunnel is settled.
#[derive(Debug, PartialEq, Eq)]
pub enum ZoneChoice {
    /// It was given in full; there is nothing to ask.
    Given(ResolvedZone),
    /// It is the one with this domain.
    Named(String),
    /// It is the only one that the token can access.
    Only,
}

/// Why a combination of account, zone and domain is refused.
pub open spec fn zone_refused(
    account_id: Option<String>,
    zone_id: Option<String>,
    domain: Option<String>,
) -> Option<Seq<char>> {
    match (account_id, zone_id, domain) {
        (Some(_), Some(_), Some(_)) => None,
        (None, None, _) => None,
        (Some(_), Some(_), None) => Some(
            "account and zone provided but domain is missing — pass .domain(...)"@,
        ),
        _ => Some(
            "account, zone and domain must be supplied together; pass .domain(\"...\") alone to auto-discover the rest"@,
        ),
    }
}

/// How the zone is settled, for a combination that is not refused.
pub open spec fn zone_choice(
    account_id: Option<String>,
    zone_id: Option<String>,
    domain: Option<String>,
) -> ZoneChoice {
    match (account_id, zone_id, domain) {
        (Some(account_id), Some(zone_id), Some(domain)) => ZoneChoice::Given(
            ResolvedZone { account_id, zone_id, domain },
        ),
        (_, _, Some(domain)) => ZoneChoice::Named(domain),
        _ => ZoneChoice::Only,
    }
}

/// Decides how any missing account, zone or domain is to be filled in.
pub fn resolve_zone(
    account_id: Option<String>,
    zone_id: Option<String>,
    domain: Option<String>,
) -> (r: Result<ZoneChoice, Error>)
    ensures
        match zone_refused(account_id, zone_id, domain) {
            Some(reason) => r matches Err(Error::Other(message)) && message@ == reason,
            None => r == Ok::<ZoneChoice, Error>(zone_choice(account_id, zone_id, domain)),
        },
{
    match (account_id, zone_id, domain) {
        (Some(account_id), Some(zone_id), Some(domain)) => Ok(
            ZoneChoice::Given(ResolvedZone { account_id, zone_id, domain }),
        ),
        (Some(_), Some(_), None) => Err(
            Error::Other(
                "account and zone provided but domain is missing — pass .domain(...)".to_owned(),
            ),
        ),
        (None, None, Some(domain)) => Ok(ZoneChoice::Named(domain)),
        (None, None, None) => Ok(ZoneChoice::Only),
        _ => Err(
            Error::Other(
                "account, zone and domain must be supplied together; pass .domain(\"...\") alone to auto-discover the rest".to_owned(),
            ),
        ),
    }
}

/// A zone as Cloudflare lists it, with what a tunnel needs of it.
pub open spec fn taken(zone: Zone) -> ResolvedZone {
    ResolvedZone { account_id: zone.account.id, zone_id: zone.id, domain: zone.name }
}

impl ZoneChoice {
    /// Settles the zone, given the zones that the token can access.
    pub fn settle(self, zones: Result<Vec<Zone>, Error>) -> (r: Result<ResolvedZone, Error>)
        ensures
            match self {
                ZoneChoice::Given(zone) => r == Ok::<ResolvedZone, Error>(zone),
                ZoneChoice::Named(domain) => match zones {
                    Err(e) => r == Err::<ResolvedZone, Error>(e),
                    Ok(zones) => match client::zone_named(zones@, domain@) {
                        Some(zone) => r == Ok::<ResolvedZone, Error>(taken(zone)),
                        None => r matches Err(Error::Other(message)) && message@ == "domain \""@
                            + domain@ + "\" is not accessible with this token"@,
                    },
                },
                ZoneChoice::Only => match zones {
                    Err(e) => r == Err::<ResolvedZone, Error>(e),
                    Ok(zones) => if zones@.len() == 1 {
                        r == Ok::<ResolvedZone, Error>(taken(zones@[0]))
                    } else {
                        r matches Err(Error::Other(message)) && message@ == if zones@.len() == 0 {
                            "token is valid but has access to no zones"@
                        } else {
                            "token has access to "@ + text::decimal(zones@.len())
                                + " zones — pass .domain(\"...\"), .account(...), and .zone(...) to disambiguate"@
                        }
                    },
                },
            },
    {
        match self {
            ZoneChoice::Given(zone) => Ok(zone),
            ZoneChoice::Named(domain) => match zones {
                Err(e) => Err(e),
                Ok(zones) => match find_zone(&zones, domain.as_str()) {
                    Some(zone) => Ok(
                        ResolvedZone {
                            account_id: zone.account.id,
                            zone_id: zone.id,
                            domain: zone.name,
                        },
                    ),
                    None => {
                        let mut message = "domain \"".to_owned();
                        message.append(domain.as_str());
                        message.append("\" is not accessible with this token");
                        Err(Error::Other(message))
                    },
                },
            },
            ZoneChoice::Only => match zones {
                Err(e) => Err(e),
                Ok(zones) => {
                    let n: usize = zones.len();
                    if n == 1 {
                        let zone = zones[0].clone();
                        return Ok(
                            ResolvedZone {
                                account_id: zone.account.id,
                                zone_id: zone.id,
                                domain: zone.name,
                            },
                        );
                    }
                    if n == 0 {
                        return Err(
                            Error::Other("token is valid but has access to no zones".to_owned()),
                        );
                    }
                    let mut message = "token has access to ".to_owned();
                    message.append(text::decimal_text(n as u64).as_str());
                    message.append(
                        " zones — pass .domain(\"...\"), .account(...), and .zone(...) to disambiguate",
                    );
                    Err(Error::Other(message))
                },
            },
        }
    }
}

/// A tunnel that is started is the one that was configured: token, protocol,
/// port, and all that it is run with stay as they are. A subdomain is taken in
/// small letters, and an empty one as none.
pub proof fn starting_keeps_the_settings(b: TunnelBuilder, r: Result<Launch, Error>)
    requires
        call_ensures(TunnelBuilder::start, (b,), r),
    ensures
        r is Ok ==> b.token is Some,
        b.token is None ==> (r matches Err(Error::MissingCredential(what)) && what@
            == "Cloudflare API token"@),
        r matches Ok(launch) ==> {
            &&& launch.token == b.token->0
            &&& launch.protocol == b.protocol
            &&& launch.port == b.port
            &&& launch.auto_restart == b.auto_restart
            &&& launch.binary_path == b.binary_path
            &&& launch.config_dir == b.config_dir
            &&& launch.github_proxy == b.github_proxy
            &&& launch.subdomain is Some <==> b.subdomain is Some && b.subdomain->0@.len() > 0
            &&& launch.subdomain is Some ==> launch.subdomain->0@ == text::lower(
                b.subdomain->0@,
            )
        },
{
}

/// A tunnel can be started exactly if it has a token, and account and zone are
/// given together with the domain or not at all.
pub proof fn account_and_zone_come_together(b: TunnelBuilder, r: Result<Launch, Error>)
    requires
        call_ensures(TunnelBuilder::start, (b,), r),
        b.token is Some,
    ensures
        r is Ok <==> (b.account_id is None && b.zone_id is None) || (b.account_id is Some
            && b.zone_id is Some && b.domain is Some),
        r is Err && b.account_id is Some && b.zone_id is Some ==> r->Err_0.described()
            == "account and zone provided but domain is missing — pass .domain(...)"@,
        r is Err && !(b.account_id is Some && b.zone_id is Some) ==> r->Err_0.described()
            == "account, zone and domain must be supplied together; pass .domain(\"...\") alone to auto-discover the rest"@,
        r matches Ok(launch) ==> {
            &&& launch.zone is Given <==> b.account_id is Some
            &&& launch.zone is Named <==> b.account_id is None && b.domain is Some
            &&& launch.zone is Only <==> b.account_id is None && b.domain is None
            &&& launch.zone matches ZoneChoice::Named(domain) ==> domain == b.domain->0
            &&& launch.zone matches ZoneChoice::Given(zone) ==> zone.account_id == b.account_id->0
                && zone.zone_id == b.zone_id->0 && zone.domain == b.domain->0
        },
{
}

/// The session of a tunnel has its own subdomain, and the made-up one only where
/// it has none; all else comes from the tunnel and from its zone.
pub proof fn sessions_take_after_the_launch(
    launch: Launch,
    zone: ResolvedZone,
    generated: String,
    r: SessionConfig,
)
    requires
        call_ensures(Launch::session, (launch, zone, generated), r),
    ensures
        launch.subdomain matches Some(name) ==> r.subdomain == name,
        launch.subdomain is None ==> r.subdomain == generated,
        r.account_id == zone.account_id,
        r.zone_id == zone.zone_id,
        r.domain == zone.domain,
        r.protocol == launch.protocol,
        r.port == launch.port,
        r.auto_restart == launch.auto_restart,
{
}

/// A zone that is settled is one of those that the token can access: the one of
/// the domain that was named, or the only one. A zone that was given in full is
/// taken as it is.
pub proof fn settled_zones_are_accessible(
    choice: ZoneChoice,
    zones: Vec<Zone>,
    r: Result<ResolvedZone, Error>,
)
    requires
        call_ensures(
            ZoneChoice::settle,
            (choice, Ok::<Vec<Zone>, Error>(zones)),
            r,
        ),
    ensures
        choice matches ZoneChoice::Given(zone) ==> r == Ok::<ResolvedZone, Error>(zone),
        !(choice is Given) ==> (r matches Ok(zone) ==> exists|i: int|
            0 <= i < zones@.len() && (#[trigger] zones@[i]).name == zone.domain && zones@[i].id
                == zone.zone_id && zones@[i].account.id == zone.account_id),
        choice matches ZoneChoice::Named(domain) ==> {
            &&& r is Ok <==> exists|i: int|
                0 <= i < zones@.len() && (#[trigger] zones@[i]).name@ == domain@
            &&& r matches Ok(zone) ==> zone.domain@ == domain@
            &&& r is Err ==> r->Err_0.described() == "domain \""@ + domain@
                + "\" is not accessible with this token"@
        },
        choice is Only ==> (r is Ok <==> zones@.len() == 1),
        choice is Only && zones@.len() == 0 ==> r->Err_0.described()
            == "token is valid but has access to no zones"@,
{
    if let ZoneChoice::Named(domain) = choice {
        client::the_first_zone_of_the_name_is_found(zones@, domain@);
    } else if choice is Only && zones@.len() == 1 {
        assert(zones@[0].name == r->Ok_0.domain);
    }
}

/// Where the zones cannot be had, a zone that depends on them is refused for the
/// same reason.
pub proof fn zones_that_cannot_be_had_settle_nothing(
    choice: ZoneChoice,
    error: Error,
    r: Result<ResolvedZone, Error>,
)
    requires
        call_ensures(
            ZoneChoice::settle,
            (choice, Err::<Vec<Zone>, Error>(error)),
            r,
        ),
    ensures
        !(choice is Given) ==> r == Err::<ResolvedZone, Error>(error),
        choice matches ZoneChoice::Given(zone) ==> r == Ok::<ResolvedZone, Error>(zone),
{
}

/// A new configuration is for `http` on port 8080, and leaves everything else
/// open.
pub proof fn new_tunnels_are_plain(r: TunnelBuilder)
    requires
        call_ensures(TunnelBuilder::new, (), r),
    ensures
        r.protocol == Protocol::Http,
        r.port == 8080,
        r.token is None,
        r.account_id is None,
        r.zone_id is None,
        r.domain is None,
        r.subdomain is None,
        r.binary_path is None,
        r.config_dir is None,
        r.github_proxy is None,
        !r.auto_restart,
{
}

/// Each setting sets its own, and leaves the others alone: protocol, port and
/// subdomain can be set in any order.
pub proof fn settings_do_not_interfere(
    b: TunnelBuilder,
    protocol: Protocol,
    port: u16,
    name: &str,
    a1: TunnelBuilder,
    a2: TunnelBuilder,
    a3: TunnelBuilder,
)
    requires
        call_ensures(TunnelBuilder::protocol, (b, protocol), a1),
        call_ensures(TunnelBuilder::port, (a1, port), a2),
        call_ensures(TunnelBuilder::subdomain, (a2, name), a3),
    ensures
        a3.protocol == protocol,
        a3.port == port,
        holds(a3.subdomain, name@),
        a3.token == b.token,
        a3.account_id == b.account_id,
        a3.zone_id == b.zone_id,
        a3.domain == b.domain,
        a3.binary_path == b.binary_path,
        a3.config_dir == b.config_dir,
        a3.github_proxy == b.github_proxy,
        a3.auto_restart == b.auto_restart,
{
}

/// The credentials are set one by one, each to the text that is given for it.
pub proof fn credentials_are_set_one_by_one(
    b: TunnelBuilder,
    token: &str,
    account: &str,
    zone: &str,
    domain: &str,
    a1: TunnelBuilder,
    a2: TunnelBuilder,
    a3: TunnelBuilder,
    a4: TunnelBuilder,
)
    requires
        call_ensures(TunnelBuilder::token, (b, token), a1),
        call_ensures(TunnelBuilder::account, (a1, account), a2),
        call_ensures(TunnelBuilder::zone, (a2, zone), a3),
        call_ensures(TunnelBuilder::domain, (a3, domain), a4),
    ensures
        a4.token is Some && a4.token->0@ == token@,
        a4.account_id is Some && a4.account_id->0@ == account@,
        a4.zone_id is Some && a4.zone_id->0@ == zone@,
        a4.domain is Some && a4.domain->0@ == domain@,
        a4.protocol == b.protocol,
        a4.port == b.port,
        a4.subdomain == b.subdomain,
        a4.auto_restart == b.auto_restart,
{
}

/// The token is all that a configuration has to have.
pub proof fn only_the_token_is_required(b: TunnelBuilder, r: Result<(), Error>)
    requires
        call_ensures(TunnelBuilder::validate, (&b,), r),
    ensures
        r is Ok <==> b.token is Some,
        r is Err ==> r->Err_0.described() == "missing credential: "@ + "Cloudflare API token"@,
{
}

/// What a tunnel is run with is set one by one too: the binary, the directory, the
/// mirror, and whether it is restarted.
pub proof fn what_it_is_run_with_is_set_one_by_one(
    b: TunnelBuilder,
    path: &str,
    dir: &str,
    proxy: &str,
    restart: bool,
    a1: TunnelBuilder,
    a2: TunnelBuilder,
    a3: TunnelBuilder,
    a4: TunnelBuilder,
)
    requires
        call_ensures(TunnelBuilder::cloudflared_path, (b, path), a1),
        call_ensures(TunnelBuilder::config_dir, (a1, dir), a2),
        call_ensures(TunnelBuilder::github_proxy, (a2, proxy), a3),
        call_ensures(TunnelBuilder::auto_restart, (a3, restart), a4),
    ensures
        a4.binary_path is Some && a4.binary_path->0@ == path@,
        a4.config_dir is Some && a4.config_dir->0@ == dir@,
        a4.github_proxy is Some && a4.github_proxy->0@ == proxy@,
        a4.auto_restart == restart,
        a4.token == b.token,
        a4.account_id == b.account_id,
        a4.zone_id == b.zone_id,
        a4.domain == b.domain,
        a4.protocol == b.protocol,
        a4.port == b.port,
        a4.subdomain == b.subdomain,
{
}

} // verus!
