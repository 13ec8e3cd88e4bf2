//! What a tunnel session is about to set up.

use vstd::prelude::*;
use vstd::string::*;

use crate::error::Error;
use crate::protocol;
use crate::protocol::{validate_subdomain, Protocol};

verus! {

/// A session as it was asked for.
#[derive(Debug, PartialEq, Eq)]
pub struct SessionConfig {
    /// Cloudflare account.
    pub account_id: String,
    /// Cloudflare zone of the base domain.
    pub zone_id: String,
    /// Base domain.
    pub domain: String,
    /// Local protocol scheme.
    pub protocol: Protocol,
    /// Local port.
    pub port: u16,
    /// Subdomain under the base domain.
    pub subdomain: String,
    /// Whether to respawn `cloudflared` after a crash.
    pub auto_restart: bool,
}

/// A session that can be set up: the subdomain is a valid label, and the full
/// host name is known.
#[derive(Debug, PartialEq, Eq)]
pub struct Plan {
    /// Cloudflare account.
    pub account_id: String,
    /// Cloudflare zone of the base domain.
    pub zone_id: String,
    /// Subdomain: the name of the tunnel.
    pub subdomain: String,
    /// Public host name.
    pub full_name: String,
    /// Local protocol scheme.
    pub protocol: Protocol,
    /// Local port.
    pub port: u16,
    /// Whether to respawn `cloudflared` after a crash.
    pub auto_restart: bool,
}

/// The public host name of a subdomain.
pub open spec fn host_name(subdomain: Seq<char>, domain: Seq<char>) -> Seq<char> {
    subdomain + "."@ + domain
}

/// The public host name of a subdomain.
pub fn full_name_of(subdomain: &str, domain: &str) -> (r: String)
    ensures
        r@ == host_name(subdomain@, domain@),
{
    let mut r = subdomain.to_owned();
    r.append(".");
    r.append(domain);
    r
}

impl SessionConfig {
    /// Checks the subdomain and works out the host name.
    pub fn plan(self) -> (r: Result<Plan, Error>)
        ensures
            r is Ok <==> protocol::is_label(self.subdomain@),
            r matches Ok(plan) ==> {
                &&& plan.account_id == self.account_id
                &&& plan.zone_id == self.zone_id
                &&& plan.subdomain == self.subdomain
                &&& plan.full_name@ == host_name(self.subdomain@, self.domain@)
                &&& plan.protocol == self.protocol
                &&& plan.port == self.port
                &&& plan.auto_restart == self.auto_restart
            },
            r matches Err(e) ==> e matches Error::InvalidSubdomain(message) && message@ == "\""@
                + self.subdomain@ + "\": "@ + protocol::label_fault(self.subdomain@),
    {
        match validate_subdomain(self.subdomain.as_str()) {
            Err(e) => Err(e.into_error()),
            Ok(()) => {
                let full_name = full_name_of(self.subdomain.as_str(), self.domain.as_str());
                Ok(
                    Plan {
                        account_id: self.account_id,
                        zone_id: self.zone_id,
                        subdomain: self.subdomain,
                        full_name,
                        protocol: self.protocol,
                        port: self.port,
                        auto_restart: self.auto_restart,
                    },
                )
            },
        }
    }
}

/// A public host name is the subdomain, a dot and the domain: nothing of either
/// is lost, and two subdomains of one domain share a host name only if they are
/// the same.
pub proof fn host_names_hold_both_parts(a: Seq<char>, b: Seq<char>, domain: Seq<char>)
    ensures
        host_name(a, domain).len() == a.len() + 1 + domain.len(),
        host_name(a, domain).take(a.len() as int) == a,
        host_name(a, domain)[a.len() as int] == '.',
        host_name(a, domain).skip(a.len() as int + 1) == domain,
        host_name(a, domain) == host_name(b, domain) ==> a == b,
{
    reveal_strlit(".");
    assert(host_name(a, domain).take(a.len() as int) =~= a);
    assert(host_name(a, domain).skip(a.len() as int + 1) =~= domain);
    if host_name(a, domain) == host_name(b, domain) {
        assert(host_name(b, domain).take(b.len() as int) =~= b);
    }
}

/// A plan is made exactly for a subdomain that is a valid label; it is about what
/// was asked for, under the host name that is made of the two.
pub proof fn plans_keep_what_was_asked_for(session: SessionConfig, r: Result<Plan, Error>)
    requires
        call_ensures(SessionConfig::plan, (session,), r),
    ensures
        r is Ok <==> protocol::is_label(session.subdomain@),
        r is Err ==> r->Err_0 is InvalidSubdomain,
        r matches Ok(plan) ==> {
            &&& plan.full_name@ == session.subdomain@ + seq!['.'] + session.domain@
            &&& plan.subdomain == session.subdomain
            &&& plan.account_id == session.account_id
            &&& plan.zone_id == session.zone_id
            &&& plan.protocol == session.protocol
            &&& plan.port == session.port
            &&& plan.auto_restart == session.auto_restart
        },
{
    reveal_strlit(".");
    assert("."@ =~= seq!['.']);
}

} // verus!
