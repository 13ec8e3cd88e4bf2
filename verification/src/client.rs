//! The Cloudflare API v4: the requests the library makes of it, and what its
//! replies mean.
//!
//! Nothing here touches the network. A method of [`CloudflareApi`] describes
//! one request; [`decode`] turns the reply into a value or a typed error.

use vstd::prelude::*;
use vstd::string::*;

use crate::error::{classify_error_code, ApiError, CloudflareErrorKind, Error};
use crate::json;
use crate::json::Json;
use crate::text;

verus! {

/// Cloudflare API base URL.
pub const CF_API_BASE: &'static str = "https://api.cloudflare.com/client/v4";

/// Account reference attached to a [`Zone`].
#[derive(Debug, PartialEq, Eq)]
pub struct ZoneAccount {
    /// Account identifier.
    pub id: String,
}

/// A DNS zone (domain).
#[derive(Debug, PartialEq, Eq)]
pub struct Zone {
    /// Zone identifier.
    pub id: String,
    /// Zone name (e.g. `example.com`).
    pub name: String,
    /// Owning account.
    pub account: ZoneAccount,
}

/// A named Cloudflare Tunnel.
#[derive(Debug, PartialEq, Eq)]
pub struct Tunnel {
    /// Tunnel identifier.
    pub id: String,
    /// Tunnel name (the subdomain).
    pub name: String,
    /// Reported status (`healthy`, `down`, `inactive`, `degraded`, ...).
    pub status: String,
    /// Connection secret used to run `cloudflared tunnel run`.
    pub token: Option<String>,
    /// Creation time, when Cloudflare reports it.
    pub created_at: Option<String>,
}

/// A DNS record.
#[derive(Debug, PartialEq, Eq)]
pub struct DnsRecord {
    /// Record identifier.
    pub id: String,
    /// Full hostname.
    pub name: String,
    /// Record value (the CNAME target for tunnels).
    pub content: String,
}

/// One ingress rule in a tunnel's remote configuration.
#[derive(Debug, PartialEq, Eq)]
pub struct IngressEntry {
    /// Public hostname, or `None` for the catch-all entry.
    pub hostname: Option<String>,
    /// Local service URL or `http_status:404`.
    pub service: String,
}

/// Result of verifying a token.
#[derive(Debug, PartialEq, Eq)]
pub struct TokenStatus {
    /// Token identifier.
    pub id: String,
    /// Status string (`active`, ...).
    pub status: String,
}

impl Clone for ZoneAccount {
    fn clone(&self) -> (r: Self)
        ensures
            r == *self,
    {
        ZoneAccount { id: self.id.clone() }
    }
}

impl Clone for Zone {
    fn clone(&self) -> (r: Self)
        ensures
            r == *self,
    {
        Zone { id: self.id.clone(), name: self.name.clone(), account: self.account.clone() }
    }
}

impl Clone for Tunnel {
    fn clone(&self) -> (r: Self)
        ensures
            r == *self,
    {
        Tunnel {
            id: self.id.clone(),
            name: self.name.clone(),
            status: self.status.clone(),
            token: self.token.clone(),
            created_at: self.created_at.clone(),
        }
    }
}

impl Clone for DnsRecord {
    fn clone(&self) -> (r: Self)
        ensures
            r == *self,
    {
        DnsRecord {
            id: self.id.clone(),
            name: self.name.clone(),
            content: self.content.clone(),
        }
    }
}

impl Clone for IngressEntry {
    fn clone(&self) -> (r: Self)
        ensures
            r == *self,
    {
        IngressEntry { hostname: self.hostname.clone(), service: self.service.clone() }
    }
}

impl Clone for TokenStatus {
    fn clone(&self) -> (r: Self)
        ensures
            r == *self,
    {
        TokenStatus { id: self.id.clone(), status: self.status.clone() }
    }
}

impl Default for ZoneAccount {
    fn default() -> (r: Self)
        ensures
            r.id@.len() == 0,
    {
        ZoneAccount { id: String::new() }
    }
}

impl Default for Zone {
    fn default() -> (r: Self)
        ensures
            r.id@.len() == 0,
            r.name@.len() == 0,
            r.account.id@.len() == 0,
    {
        Zone { id: String::new(), name: String::new(), account: ZoneAccount { id: String::new() } }
    }
}

impl Default for Tunnel {
    fn default() -> (r: Self)
        ensures
            r.id@.len() == 0,
            r.name@.len() == 0,
            r.status@.len() == 0,
            r.token is None,
            r.created_at is None,
    {
        Tunnel {
            id: String::new(),
            name: String::new(),
            status: String::new(),
            token: None,
            created_at: None,
        }
    }
}

impl Default for DnsRecord {
    fn default() -> (r: Self)
        ensures
            r.id@.len() == 0,
            r.name@.len() == 0,
            r.content@.len() == 0,
    {
        DnsRecord { id: String::new(), name: String::new(), content: String::new() }
    }
}

impl Default for TokenStatus {
    fn default() -> (r: Self)
        ensures
            r.id@.len() == 0,
            r.status@.len() == 0,
    {
        TokenStatus { id: String::new(), status: String::new() }
    }
}

/// The HTTP method of a request.
#[derive(Debug, Clone, Copy, PartialEq, Eq, Structural)]
pub enum Method {
    /// `GET`
    Get,
    /// `POST`
    Post,
    /// `PUT`
    Put,
    /// `DELETE`
    Delete,
}

/// One request to the API, ready to be sent with `Content-Type:
/// application/json`.
#[derive(Debug, PartialEq, Eq)]
pub struct ApiRequest {
    /// HTTP method.
    pub method: Method,
    /// Full URL.
    pub url: String,
    /// Token for the `Authorization: Bearer` header.
    pub token: String,
    /// JSON body, when there is one.
    pub body: Option<String>,
    /// What a successful reply holds.
    pub answer: Answer,
}

/// What the API sends back when it grants a request.
#[derive(Debug, Clone, Copy, PartialEq, Eq, Structural)]
pub enum Answer {
    /// The state of the token.
    TokenStatus,
    /// A list of zones.
    Zones,
    /// One tunnel.
    Tunnel,
    /// A list of tunnels.
    Tunnels,
    /// One DNS record.
    Record,
    /// A list of DNS records.
    Records,
    /// Nothing that matters.
    Nothing,
}

/// What came back for a request: the decoded answer, or why there is none.
#[derive(Debug, PartialEq, Eq)]
pub enum Reply {
    /// To [`CloudflareApi::verify_token`].
    TokenStatus(Result<TokenStatus, Error>),
    /// To [`CloudflareApi::list_zones`].
    Zones(Result<Vec<Zone>, Error>),
    /// To a request about one tunnel.
    Tunnel(Result<Tunnel, Error>),
    /// To a request for tunnels.
    Tunnels(Result<Vec<Tunnel>, Error>),
    /// To [`CloudflareApi::create_dns_record`].
    Record(Result<DnsRecord, Error>),
    /// To a request for DNS records.
    Records(Result<Vec<DnsRecord>, Error>),
    /// To a request whose answer does not matter.
    Nothing(Result<(), Error>),
}

impl Reply {
    /// The kind of answer that this is.
    pub open spec fn answer(self) -> Answer {
        match self {
            Reply::TokenStatus(_) => Answer::TokenStatus,
            Reply::Zones(_) => Answer::Zones,
            Reply::Tunnel(_) => Answer::Tunnel,
            Reply::Tunnels(_) => Answer::Tunnels,
            Reply::Record(_) => Answer::Record,
            Reply::Records(_) => Answer::Records,
            Reply::Nothing(_) => Answer::Nothing,
        }
    }

    /// The request was granted.
    pub open spec fn granted(self) -> bool {
        match self {
            Reply::TokenStatus(r) => r is Ok,
            Reply::Zones(r) => r is Ok,
            Reply::Tunnel(r) => r is Ok,
            Reply::Tunnels(r) => r is Ok,
            Reply::Record(r) => r is Ok,
            Reply::Records(r) => r is Ok,
            Reply::Nothing(r) => r is Ok,
        }
    }

    /// Why the request was not granted.
    pub open spec fn refusal(self) -> Option<Error> {
        match self {
            Reply::TokenStatus(Err(e)) => Some(e),
            Reply::Zones(Err(e)) => Some(e),
            Reply::Tunnel(Err(e)) => Some(e),
            Reply::Tunnels(Err(e)) => Some(e),
            Reply::Record(Err(e)) => Some(e),
            Reply::Records(Err(e)) => Some(e),
            Reply::Nothing(Err(e)) => Some(e),
            _ => None,
        }
    }

    /// The reason for a refusal, whatever was asked.
    pub fn failure(self) -> (r: Option<Error>)
        ensures
            r == self.refusal(),
    {
        match self {
            Reply::TokenStatus(Err(e)) => Some(e),
            Reply::Zones(Err(e)) => Some(e),
            Reply::Tunnel(Err(e)) => Some(e),
            Reply::Tunnels(Err(e)) => Some(e),
            Reply::Record(Err(e)) => Some(e),
            Reply::Records(Err(e)) => Some(e),
            Reply::Nothing(Err(e)) => Some(e),
            _ => None,
        }
    }
}

/// The Cloudflare API as one user sees it: where it is, and the user's token.
#[derive(Debug, PartialEq, Eq)]
pub struct CloudflareApi {
    /// API token.
    pub token: String,
    /// Base URL.
    pub base: String,
}

impl Clone for CloudflareApi {
    fn clone(&self) -> (r: Self)
        ensures
            r == *self,
    {
        CloudflareApi { token: self.token.clone(), base: self.base.clone() }
    }
}

/// One ingress rule: a service, for one host name or for all that is left.
pub struct Rule {
    /// Public hostname, or `None` for the catch-all rule.
    pub hostname: Option<Seq<char>>,
    /// Local service URL or `http_status:404`.
    pub service: Seq<char>,
}

impl View for IngressEntry {
    type V = Rule;

    open spec fn view(&self) -> Rule {
        Rule {
            hostname: match self.hostname {
                Some(hostname) => Some(hostname@),
                None => None,
            },
            service: self.service@,
        }
    }
}

impl Rule {
    /// The rule as a document; the catch-all has no host name.
    pub open spec fn document(self) -> Json {
        let service = json::nothing().insert("service"@, Json::Text(self.service));
        match self.hostname {
            Some(hostname) => Json::Object(service.insert("hostname"@, Json::Text(hostname))),
            None => Json::Object(service),
        }
    }
}

/// The rules that a list of ingress entries stands for.
pub open spec fn rules_of(ingress: Seq<IngressEntry>) -> Seq<Rule> {
    ingress.map_values(|entry: IngressEntry| entry@)
}

/// What can be asked of the API.
pub enum Call {
    /// The state of the token.
    VerifyToken,
    /// The zones that the token can access.
    ListZones,
    /// A new tunnel.
    CreateTunnel { account: Seq<char>, name: Seq<char> },
    /// The tunnels with a given name.
    FindTunnel { account: Seq<char>, name: Seq<char> },
    /// The tunnels with a given status.
    ListTunnels { account: Seq<char>, status: Seq<char> },
    /// The end of all connections of a tunnel.
    CleanupConnections { account: Seq<char>, tunnel: Seq<char> },
    /// The end of a tunnel.
    DeleteTunnel { account: Seq<char>, tunnel: Seq<char> },
    /// One tunnel.
    GetTunnel { account: Seq<char>, tunnel: Seq<char> },
    /// New ingress rules for a tunnel.
    SetIngress { account: Seq<char>, tunnel: Seq<char>, rules: Seq<Rule> },
    /// The DNS records of a given name.
    FindRecord { zone: Seq<char>, name: Seq<char> },
    /// The DNS records of a given type.
    ListRecords { zone: Seq<char>, kind: Seq<char> },
    /// A new proxied CNAME record.
    CreateRecord { zone: Seq<char>, name: Seq<char>, target: Seq<char> },
    /// The end of a DNS record.
    DeleteRecord { zone: Seq<char>, record: Seq<char> },
}

/// The path of an account's tunnels.
pub open spec fn tunnels_path(account: Seq<char>) -> Seq<char> {
    "/accounts/"@ + account + "/tunnels"@
}

/// The path of one tunnel.
pub open spec fn tunnel_path(account: Seq<char>, tunnel: Seq<char>) -> Seq<char> {
    tunnels_path(account) + "/"@ + tunnel
}

/// The path of a zone's DNS records.
pub open spec fn records_path(zone: Seq<char>) -> Seq<char> {
    "/zones/"@ + zone + "/dns_records"@
}

impl Call {
    /// The HTTP method.
    pub open spec fn method(self) -> Method {
        match self {
            Call::CreateTunnel { .. } | Call::CreateRecord { .. } => Method::Post,
            Call::SetIngress { .. } => Method::Put,
            Call::CleanupConnections { .. } | Call::DeleteTunnel { .. } | Call::DeleteRecord {
                ..
            } => Method::Delete,
            _ => Method::Get,
        }
    }

    /// What follows the base URL.
    pub open spec fn path(self) -> Seq<char> {
        match self {
            Call::VerifyToken => "/user/tokens/verify"@,
            Call::ListZones => "/zones?per_page=50"@,
            Call::CreateTunnel { account, .. } => tunnels_path(account),
            Call::FindTunnel { account, name } => tunnels_path(account) + "?name="@ + name
                + "&is_deleted=false"@,
            Call::ListTunnels { account, status } => tunnels_path(account)
                + "?is_deleted=false&status="@ + status,
            Call::CleanupConnections { account, tunnel } => tunnel_path(account, tunnel)
                + "/connections"@,
            Call::DeleteTunnel { account, tunnel } => tunnel_path(account, tunnel),
            Call::GetTunnel { account, tunnel } => tunnel_path(account, tunnel),
            Call::SetIngress { account, tunnel, .. } => "/accounts/"@ + account + "/cfd_tunnel/"@
                + tunnel + "/configurations"@,
            Call::FindRecord { zone, name } => records_path(zone) + "?name="@ + name,
            Call::ListRecords { zone, kind } => records_path(zone) + "?type="@ + kind
                + "&per_page=100"@,
            Call::CreateRecord { zone, .. } => records_path(zone),
            Call::DeleteRecord { zone, record } => records_path(zone) + "/"@ + record,
        }
    }

    /// The document in the body.
    pub open spec fn document(self) -> Option<Json> {
        let nothing = json::nothing();
        match self {
            Call::CreateTunnel { name, .. } => Some(
                Json::Object(
                    nothing.insert("name"@, Json::Text(name)).insert(
                        "config_src"@,
                        Json::Text("cloudflare"@),
                    ),
                ),
            ),
            Call::CreateRecord { name, target, .. } => Some(
                Json::Object(
                    nothing.insert("type"@, Json::Text("CNAME"@)).insert(
                        "name"@,
                        Json::Text(name),
                    ).insert("content"@, Json::Text(target)).insert(
                        "proxied"@,
                        Json::Bool(true),
                    ).insert("ttl"@, Json::Number(1)),
                ),
            ),
            Call::SetIngress { rules, .. } => Some(
                Json::Object(
                    nothing.insert(
                        "config"@,
                        Json::Object(
                            nothing.insert(
                                "ingress"@,
                                Json::Array(rules.map_values(|rule: Rule| rule.document())),
                            ),
                        ),
                    ),
                ),
            ),
            _ => None,
        }
    }

    /// What a granted call is answered with.
    pub open spec fn answer(self) -> Answer {
        match self {
            Call::VerifyToken => Answer::TokenStatus,
            Call::ListZones => Answer::Zones,
            Call::CreateTunnel { .. } | Call::GetTunnel { .. } => Answer::Tunnel,
            Call::FindTunnel { .. } | Call::ListTunnels { .. } => Answer::Tunnels,
            Call::FindRecord { .. } | Call::ListRecords { .. } => Answer::Records,
            Call::CreateRecord { .. } => Answer::Record,
            Call::CleanupConnections { .. } | Call::DeleteTunnel { .. } | Call::SetIngress {
                ..
            } | Call::DeleteRecord { .. } => Answer::Nothing,
        }
    }
}

impl ApiRequest {
    /// This request makes the given call of the given API.
    pub open spec fn makes(self, api: CloudflareApi, call: Call) -> bool {
        &&& self.method == call.method()
        &&& self.url@ == api.base@ + call.path()
        &&& self.token@ == api.token@
        &&& match call.document() {
            Some(document) => self.body is Some && self.body->0@ == json::json_text(document),
            None => self.body is None,
        }
        &&& self.answer == call.answer()
    }
}

fn tunnels_of(account_id: &str) -> (r: String)
    ensures
        r@ == tunnels_path(account_id@),
{
    let mut r = "/accounts/".to_owned();
    r.append(account_id);
    r.append("/tunnels");
    r
}

fn tunnel_of(account_id: &str, tunnel_id: &str) -> (r: String)
    ensures
        r@ == tunnel_path(account_id@, tunnel_id@),
{
    let mut r = tunnels_of(account_id);
    r.append("/");
    r.append(tunnel_id);
    r
}

fn records_of(zone_id: &str) -> (r: String)
    ensures
        r@ == records_path(zone_id@),
{
    let mut r = "/zones/".to_owned();
    r.append(zone_id);
    r.append("/dns_records");
    r
}

impl CloudflareApi {
    /// The production API, seen with the given token.
    pub fn new(token: &str) -> (r: Self)
        ensures
            r.token@ == token@,
            r.base@ == CF_API_BASE@,
    {
        CloudflareApi::with_base(token, CF_API_BASE)
    }

    /// The API behind a custom base URL (for tests and proxies).
    pub fn with_base(token: &str, base: &str) -> (r: Self)
        ensures
            r.token@ == token@,
            r.base@ == base@,
    {
        CloudflareApi { token: token.to_owned(), base: base.to_owned() }
    }

    fn request(
        &self,
        method: Method,
        path: &str,
        body: Option<String>,
        answer: Answer,
    ) -> (r: ApiRequest)
        ensures
            r.method == method,
            r.url@ == self.base@ + path@,
            r.token@ == self.token@,
            r.body == body,
            r.answer == answer,
    {
        let mut url = self.base.clone();
        url.append(path);
        ApiRequest { method, url, token: self.token.clone(), body, answer }
    }

    /// Verifies the token (`GET /user/tokens/verify`).
    pub fn verify_token(&self) -> (r: ApiRequest)
        ensures
            r.makes(*self, Call::VerifyToken),
    {
        self.request(Method::Get, "/user/tokens/verify", None, Answer::TokenStatus)
    }

    /// Lists all DNS zones the token can access.
    pub fn list_zones(&self) -> (r: ApiRequest)
        ensures
            r.makes(*self, Call::ListZones),
    {
        self.request(Method::Get, "/zones?per_page=50", None, Answer::Zones)
    }

    /// Creates a named tunnel (`POST /accounts/{id}/tunnels`).
    pub fn create_tunnel(&self, account_id: &str, name: &str) -> (r: ApiRequest)
        ensures
            r.makes(*self, (Call::CreateTunnel { account: account_id@, name: name@ })),
    {
        let mut members = json::no_members();
        json::insert(&mut members, "name", json::string(name));
        json::insert(&mut members, "config_src", json::string("cloudflare"));
        let body = json::render(&json::object(members));
        self.request(Method::Post, tunnels_of(account_id).as_str(), Some(body), Answer::Tunnel)
    }

    /// Finds non-deleted tunnels by name.
    pub fn find_tunnel_by_name(&self, account_id: &str, name: &str) -> (r: ApiRequest)
        ensures
            r.makes(*self, (Call::FindTunnel { account: account_id@, name: name@ })),
    {
        let mut path = tunnels_of(account_id);
        path.append("?name=");
        path.append(name);
        path.append("&is_deleted=false");
        self.request(Method::Get, path.as_str(), None, Answer::Tunnels)
    }

    /// Lists tunnels by status (e.g. `down`, `inactive`, `degraded`, `healthy`).
    pub fn list_tunnels(&self, account_id: &str, status: &str) -> (r: ApiRequest)
        ensures
            r.makes(*self, (Call::ListTunnels { account: account_id@, status: status@ })),
    {
        let mut path = tunnels_of(account_id);
        path.append("?is_deleted=false&status=");
        path.append(status);
        self.request(Method::Get, path.as_str(), None, Answer::Tunnels)
    }

    /// Cleans up all active connections of a tunnel (required before deletion).
    pub fn cleanup_connections(&self, account_id: &str, tunnel_id: &str) -> (r: ApiRequest)
        ensures
            r.makes(*self, (Call::CleanupConnections { account: account_id@, tunnel: tunnel_id@ })),
    {
        let mut path = tunnel_of(account_id, tunnel_id);
        path.append("/connections");
        self.request(Method::Delete, path.as_str(), None, Answer::Nothing)
    }

    /// Deletes a tunnel by ID.
    pub fn delete_tunnel(&self, account_id: &str, tunnel_id: &str) -> (r: ApiRequest)
        ensures
            r.makes(*self, (Call::DeleteTunnel { account: account_id@, tunnel: tunnel_id@ })),
    {
        let path = tunnel_of(account_id, tunnel_id);
        self.request(Method::Delete, path.as_str(), None, Answer::Nothing)
    }

    /// Looks up the DNS records of a full name (e.g. `foo.example.com`).
    pub fn find_dns_record(&self, zone_id: &str, full_name: &str) -> (r: ApiRequest)
        ensures
            r.makes(*self, (Call::FindRecord { zone: zone_id@, name: full_name@ })),
    {
        let mut path = records_of(zone_id);
        path.append("?name=");
        path.append(full_name);
        self.request(Method::Get, path.as_str(), None, Answer::Records)
    }

    /// Creates a proxied CNAME record pointing at a tunnel's target.
    pub fn create_dns_record(&self, zone_id: &str, full_name: &str, target: &str) -> (r: ApiRequest)
        ensures
            r.makes(
                *self,
                (Call::CreateRecord { zone: zone_id@, name: full_name@, target: target@ }),
            ),
    {
        let mut members = json::no_members();
        json::insert(&mut members, "type", json::string("CNAME"));
        json::insert(&mut members, "name", json::string(full_name));
        json::insert(&mut members, "content", json::string(target));
        json::insert(&mut members, "proxied", json::boolean(true));
        json::insert(&mut members, "ttl", json::integer(1));
        let body = json::render(&json::object(members));
        self.request(Method::Post, records_of(zone_id).as_str(), Some(body), Answer::Record)
    }

    /// Deletes a DNS record by record ID.
    pub fn delete_dns_record(&self, zone_id: &str, record_id: &str) -> (r: ApiRequest)
        ensures
            r.makes(*self, (Call::DeleteRecord { zone: zone_id@, record: record_id@ })),
    {
        let mut path = records_of(zone_id);
        path.append("/");
        path.append(record_id);
        self.request(Method::Delete, path.as_str(), None, Answer::Nothing)
    }

    /// Lists DNS records of a given type (e.g. `CNAME`).
    pub fn list_dns_records(&self, zone_id: &str, record_type: &str) -> (r: ApiRequest)
        ensures
            r.makes(*self, (Call::ListRecords { zone: zone_id@, kind: record_type@ })),
    {
        let mut path = records_of(zone_id);
        path.append("?type=");
        path.append(record_type);
        path.append("&per_page=100");
        self.request(Method::Get, path.as_str(), None, Answer::Records)
    }

    /// Fetches one tunnel: it exists exactly if this succeeds.
    pub fn tunnel_exists(&self, account_id: &str, tunnel_id: &str) -> (r: ApiRequest)
        ensures
            r.makes(*self, (Call::GetTunnel { account: account_id@, tunnel: tunnel_id@ })),
    {
        self.request(Method::Get, tunnel_of(account_id, tunnel_id).as_str(), None, Answer::Tunnel)
    }

    /// Replaces a tunnel's remote ingress configuration.
    pub fn set_tunnel_ingress(
        &self,
        account_id: &str,
        tunnel_id: &str,
        ingress: &Vec<IngressEntry>,
    ) -> (r: ApiRequest)
        ensures
            r.makes(
                *self,
                (Call::SetIngress {
                    account: account_id@,
                    tunnel: tunnel_id@,
                    rules: rules_of(ingress@),
                }),
            ),
    {
        let mut rules: Vec<serde_json::Value> = Vec::new();
        let mut i: usize = 0;
        while i < ingress.len()
            invariant
                i <= ingress@.len(),
                rules@.len() == i,
                forall|j: int|
                    0 <= j < i ==> json::json_of(#[trigger] rules@[j]) == ingress@[j]@.document(),
            decreases ingress@.len() - i,
        {
            let mut members = json::no_members();
            json::insert(&mut members, "service", json::string(ingress[i].service.as_str()));
            if let Some(hostname) = &ingress[i].hostname {
                json::insert(&mut members, "hostname", json::string(hostname.as_str()));
            }
            rules.push(json::object(members));
            i = i + 1;
        }
        assert(rules@.map_values(|v: serde_json::Value| json::json_of(v)) =~= rules_of(
            ingress@,
        ).map_values(|rule: Rule| rule.document()));
        let mut config = json::no_members();
        json::insert(&mut config, "ingress", json::array(rules));
        let mut members = json::no_members();
        json::insert(&mut members, "config", json::object(config));
        let body = json::render(&json::object(members));
        let mut path = "/accounts/".to_owned();
        path.append(account_id);
        path.append("/cfd_tunnel/");
        path.append(tunnel_id);
        path.append("/configurations");
        self.request(Method::Put, path.as_str(), Some(body), Answer::Nothing)
    }
}

/// The first zone with exactly the given name.
pub open spec fn zone_named(zones: Seq<Zone>, domain: Seq<char>) -> Option<Zone>
    decreases zones.len(),
{
    if zones.len() == 0 {
        None
    } else if zones[0].name@ == domain {
        Some(zones[0])
    } else {
        zone_named(zones.drop_first(), domain)
    }
}

/// Finds a zone by exact domain name.
pub fn find_zone(zones: &Vec<Zone>, domain: &str) -> (r: Option<Zone>)
    ensures
        r == zone_named(zones@, domain@),
{
    let mut i: usize = 0;
    assert(zones@.skip(0) == zones@);
    while i < zones.len()
        invariant
            i <= zones@.len(),
            zone_named(zones@, domain@) == zone_named(zones@.skip(i as int), domain@),
        decreases zones@.len() - i,
    {
        assert(zones@.skip(i as int).drop_first() == zones@.skip(i + 1));
        if text::same(zones[i].name.as_str(), domain) {
            return Some(zones[i].clone());
        }
        i = i + 1;
    }
    None
}

/// The first record with exactly the given name.
pub open spec fn record_named(records: Seq<DnsRecord>, full_name: Seq<char>) -> Option<DnsRecord>
    decreases records.len(),
{
    if records.len() == 0 {
        None
    } else if records[0].name@ == full_name {
        Some(records[0])
    } else {
        record_named(records.drop_first(), full_name)
    }
}

/// Picks the DNS record with exactly the given full name out of a reply.
pub fn pick_record(records: &Vec<DnsRecord>, full_name: &str) -> (r: Option<DnsRecord>)
    ensures
        r == record_named(records@, full_name@),
{
    let mut i: usize = 0;
    assert(records@.skip(0) == records@);
    while i < records.len()
        invariant
            i <= records@.len(),
            record_named(records@, full_name@) == record_named(
                records@.skip(i as int),
                full_name@,
            ),
        decreases records@.len() - i,
    {
        assert(records@.skip(i as int).drop_first() == records@.skip(i + 1));
        if text::same(records[i].name.as_str(), full_name) {
            return Some(records[i].clone());
        }
        i = i + 1;
    }
    None
}

/// The zone that is found is the first of those with exactly the name asked
/// for; none is found exactly if no zone has it.
pub proof fn the_first_zone_of_the_name_is_found(zones: Seq<Zone>, domain: Seq<char>)
    ensures
        zone_named(zones, domain) matches Some(zone) ==> exists|i: int|
            0 <= i < zones.len() && #[trigger] zones[i] == zone && zone.name@ == domain && (
            forall|j: int| 0 <= j < i ==> (#[trigger] zones[j]).name@ != domain),
        zone_named(zones, domain) is None <==> forall|i: int|
            0 <= i < zones.len() ==> (#[trigger] zones[i]).name@ != domain,
    decreases zones.len(),
{
    if zones.len() > 0 {
        let rest = zones.drop_first();
        the_first_zone_of_the_name_is_found(rest, domain);
        assert forall|i: int| 0 <= i < rest.len() implies rest[i] == #[trigger] zones[i + 1] by {}
        if zones[0].name@ != domain {
            if let Some(zone) = zone_named(rest, domain) {
                let i = choose|i: int|
                    0 <= i < rest.len() && #[trigger] rest[i] == zone && zone.name@ == domain && (
                    forall|j: int| 0 <= j < i ==> (#[trigger] rest[j]).name@ != domain);
                assert(zones[i + 1] == zone);
                assert forall|j: int| 0 <= j < i + 1 implies (#[trigger] zones[j]).name@
                    != domain by {
                    if j > 0 {
                        assert(rest[j - 1].name@ != domain);
                    }
                }
            } else {
                assert forall|i: int| 0 <= i < zones.len() implies (#[trigger] zones[i]).name@
                    != domain by {
                    if i > 0 {
                        assert(rest[i - 1].name@ != domain);
                    }
                }
            }
        } else {
            assert(zones[0] == zone_named(zones, domain)->0);
        }
    }
}

/// The record that is picked is the first of those with exactly the name asked
/// for; none is picked exactly if no record has it.
pub proof fn the_first_record_of_the_name_is_picked(
    records: Seq<DnsRecord>,
    full_name: Seq<char>,
)
    ensures
        record_named(records, full_name) matches Some(record) ==> exists|i: int|
            0 <= i < records.len() && #[trigger] records[i] == record && record.name@ == full_name
                && (forall|j: int| 0 <= j < i ==> (#[trigger] records[j]).name@ != full_name),
        record_named(records, full_name) is None <==> forall|i: int|
            0 <= i < records.len() ==> (#[trigger] records[i]).name@ != full_name,
    decreases records.len(),
{
    if records.len() > 0 {
        let rest = records.drop_first();
        the_first_record_of_the_name_is_picked(rest, full_name);
        assert forall|i: int| 0 <= i < rest.len() implies rest[i] == #[trigger] records[i + 1] by {}
        if records[0].name@ != full_name {
            if let Some(record) = record_named(rest, full_name) {
                let i = choose|i: int|
                    0 <= i < rest.len() && #[trigger] rest[i] == record && record.name@ == full_name
                        && (forall|j: int| 0 <= j < i ==> (#[trigger] rest[j]).name@ != full_name);
                assert(records[i + 1] == record);
                assert forall|j: int| 0 <= j < i + 1 implies (#[trigger] records[j]).name@
                    != full_name by {
                    if j > 0 {
                        assert(rest[j - 1].name@ != full_name);
                    }
                }
            } else {
                assert forall|i: int| 0 <= i < records.len() implies (#[trigger] records[i]).name@
                    != full_name by {
                    if i > 0 {
                        assert(rest[i - 1].name@ != full_name);
                    }
                }
            }
        } else {
            assert(records[0] == record_named(records, full_name)->0);
        }
    }
}

/// One error in a reply.
#[derive(Debug, PartialEq, Eq)]
pub struct CfError {
    /// Numeric code, when there is one.
    pub code: Option<u64>,
    /// Human-readable message.
    pub message: String,
}

/// The envelope around every reply.
#[derive(Debug, PartialEq, Eq)]
pub struct CfResponse<T> {
    /// Whether the call succeeded.
    pub success: bool,
    /// The value, when there is one.
    pub result: Option<T>,
    /// The errors, when there are any.
    pub errors: Option<Vec<CfError>>,
}

/// The status line text of an HTTP status code, e.g. `502 Bad Gateway`.
pub uninterp spec fn status_line(status: u16) -> Seq<char>;

/// `reqwest::StatusCode::from_u16` accepts every code from 100 to 999, and the
/// status it gives is displayed as the code, a space and a reason.
#[verifier::external_body]
fn status_text(status: u16) -> (r: String)
    requires
        100 <= status <= 999,
    ensures
        r@ == status_line(status),
        (text::decimal(status as nat) + " "@).is_prefix_of(r@),
{
    reqwest::StatusCode::from_u16(status).unwrap().to_string()
}

/// A status code that reports success.
pub open spec fn is_success(status: u16) -> bool {
    200 <= status <= 299
}

/// What a refused request with error `code` and `message` amounts to.
pub open spec fn refusal(code: Option<u64>, message: Seq<char>, e: ApiError) -> bool {
    e matches ApiError::Api { code: c, message: m, kind } && c == code && m@ == message && kind == (
    match code {
        Some(n) => crate::error::meaning(n),
        None => CloudflareErrorKind::Other(0),
    })
}

/// A Cloudflare error code and message as a typed error.
pub fn friendly(code: Option<u64>, message: &str) -> (r: ApiError)
    ensures
        refusal(code, message@, r),
{
    let kind = match code {
        Some(n) => classify_error_code(n),
        None => CloudflareErrorKind::Other(0),
    };
    ApiError::Api { code, message: message.to_owned(), kind }
}

/// The first error of a reply, when it lists any.
pub open spec fn first_error<T>(envelope: CfResponse<T>) -> Option<CfError> {
    match envelope.errors {
        Some(errors) => if errors@.len() > 0 {
            Some(errors@[0])
        } else {
            None
        },
        None => None,
    }
}

/// The message for a failed reply that lists no error, given its status line.
pub open spec fn bare_failure(line: Seq<char>, body: Seq<char>) -> Seq<char> {
    if body.len() == 0 {
        "HTTP "@ + line
    } else {
        "HTTP "@ + line + ": "@ + text::shortened(body, 256)
    }
}

/// The message for a failed reply that lists no error, given its status line.
pub fn http_failure(line: &str, body: &str) -> (r: String)
    ensures
        r@ == bare_failure(line@, body@),
{
    let mut message = "HTTP ".to_owned();
    message.append(line);
    if !body.is_empty() {
        message.append(": ");
        message.append(text::truncate(body, 256).as_str());
    }
    message
}

/// The error that a reply amounts to, when it does not report success.
pub open spec fn failure<T>(
    status: u16,
    body: Seq<char>,
    envelope: Option<CfResponse<T>>,
    e: ApiError,
) -> bool {
    match envelope {
        None => e matches ApiError::NonJson { status: s, body: b } && s == status && b@
            == text::shortened(body, 512),
        Some(reply) => match first_error(reply) {
            Some(first) => refusal(first.code, first.message@, e),
            None => refusal(None, bare_failure(status_line(status), body), e),
        },
    }
}

/// A reply that reports success: JSON, a success status and a success flag.
pub open spec fn succeeded<T>(status: u16, envelope: Option<CfResponse<T>>) -> bool {
    envelope is Some && is_success(status) && envelope->0.success
}

/// What a reply means. `envelope` is the body as JSON, or `None` when it is
/// not the expected JSON. A success without a value counts as the default
/// value: deletions are answered that way.
pub fn decode<T: Default>(status: u16, body: &str, envelope: Option<CfResponse<T>>) -> (r: Result<
    T,
    ApiError,
>)
    requires
        100 <= status <= 999,
    ensures
        r is Ok <==> succeeded(status, envelope),
        r matches Ok(value) ==> match envelope->0.result {
            Some(v) => value == v,
            None => T::default.ensures((), value),
        },
        r matches Err(e) ==> failure(status, body@, envelope, e),
{
    match envelope {
        None => Err(ApiError::NonJson { status, body: text::truncate(body, 512) }),
        Some(reply) => {
            if !(200 <= status && status <= 299) || !reply.success {
                return Err(refused(status, body, &reply.errors));
            }
            Ok(reply.result.unwrap_or_default())
        },
    }
}

fn refused(status: u16, body: &str, errors: &Option<Vec<CfError>>) -> (r: ApiError)
    requires
        100 <= status <= 999,
    ensures
        match *errors {
            Some(list) => if list@.len() > 0 {
                refusal(list@[0].code, list@[0].message@, r)
            } else {
                refusal(None, bare_failure(status_line(status), body@), r)
            },
            None => refusal(None, bare_failure(status_line(status), body@), r),
        },
{
    if let Some(list) = errors {
        if list.len() > 0 {
            return friendly(list[0].code, list[0].message.as_str());
        }
    }
    let message = http_failure(status_text(status).as_str(), body);
    friendly(None, message.as_str())
}

/// A Cloudflare error code and message as text that says what to do.
pub open spec fn friendly_text(code: Option<u64>, message: Seq<char>) -> Seq<char> {
    match code {
        Some(n) => match crate::error::meaning(n) {
            CloudflareErrorKind::RateLimited => "Cloudflare API rate limit hit ("@ + message
                + "). Wait a minute or two and retry — the quota resets automatically."@,
            CloudflareErrorKind::DnsExists => "DNS record already exists ("@ + message + ")."@,
            CloudflareErrorKind::AuthFailed => "Cloudflare authentication failed ("@ + message
                + "). Check that the token is valid and has the required permissions (see README for the exact permissions needed)."@,
            CloudflareErrorKind::InvalidToken => "Invalid API token ("@ + message + ")."@,
            CloudflareErrorKind::Other(_) => "Cloudflare API error ["@ + text::decimal(n as nat)
                + "]: "@ + message,
        },
        None => "Cloudflare API error: "@ + message,
    }
}

/// Converts Cloudflare error codes into actionable messages.
pub fn friendly_error(code: Option<u64>, message: &str) -> (r: String)
    ensures
        r@ == friendly_text(code, message@),
{
    match code {
        Some(n) => match classify_error_code(n) {
            CloudflareErrorKind::RateLimited => {
                let mut r = "Cloudflare API rate limit hit (".to_owned();
                r.append(message);
                r.append("). Wait a minute or two and retry — the quota resets automatically.");
                r
            },
            CloudflareErrorKind::DnsExists => {
                let mut r = "DNS record already exists (".to_owned();
                r.append(message);
                r.append(").");
                r
            },
            CloudflareErrorKind::AuthFailed => {
                let mut r = "Cloudflare authentication failed (".to_owned();
                r.append(message);
                r.append(
                    "). Check that the token is valid and has the required permissions (see README for the exact permissions needed).",
                );
                r
            },
            CloudflareErrorKind::InvalidToken => {
                let mut r = "Invalid API token (".to_owned();
                r.append(message);
                r.append(").");
                r
            },
            CloudflareErrorKind::Other(_) => {
                let mut r = "Cloudflare API error [".to_owned();
                r.append(text::decimal_text(n).as_str());
                r.append("]: ");
                r.append(message);
                r
            },
        },
        None => {
            let mut r = "Cloudflare API error: ".to_owned();
            r.append(message);
            r
        },
    }
}

/// The text that a reply without success amounts to, given its status line.
pub open spec fn failure_text<T>(
    status: u16,
    line: Seq<char>,
    body: Seq<char>,
    envelope: Option<CfResponse<T>>,
) -> Seq<char> {
    match envelope {
        None => "non-JSON response (HTTP "@ + line + "): "@ + body,
        Some(reply) => if is_success(status) && reply.success {
            "API response missing 'result' field"@
        } else {
            match first_error(reply) {
                Some(first) => friendly_text(first.code, first.message@),
                None => "HTTP "@ + line + ": "@ + body,
            }
        },
    }
}

/// What a reply means, for a caller that needs a value and shows errors to a
/// person: a success without a value is an error here. `line` is the status
/// line.
pub fn decode_under<T>(status: u16, line: &str, body: &str, envelope: Option<CfResponse<T>>) -> (r:
    Result<T, String>)
    ensures
        r is Ok <==> succeeded(status, envelope) && envelope->0.result is Some,
        r matches Ok(value) ==> envelope->0.result == Some(value),
        r matches Err(message) ==> message@ == failure_text(status, line@, body@, envelope),
{
    match envelope {
        None => {
            let mut r = "non-JSON response (HTTP ".to_owned();
            r.append(line);
            r.append("): ");
            r.append(body);
            Err(r)
        },
        Some(reply) => {
            if !(200 <= status && status <= 299) || !reply.success {
                if let Some(list) = &reply.errors {
                    if list.len() > 0 {
                        return Err(friendly_error(list[0].code, list[0].message.as_str()));
                    }
                }
                let mut r = "HTTP ".to_owned();
                r.append(line);
                r.append(": ");
                r.append(body);
                return Err(r);
            }
            match reply.result {
                Some(value) => Ok(value),
                None => Err("API response missing 'result' field".to_owned()),
            }
        },
    }
}

/// What a reply means, for a caller that needs a value and shows errors to a
/// person.
pub fn decode_value<T>(status: u16, body: &str, envelope: Option<CfResponse<T>>) -> (r: Result<
    T,
    String,
>)
    requires
        100 <= status <= 999,
    ensures
        r is Ok <==> succeeded(status, envelope) && envelope->0.result is Some,
        r matches Ok(value) ==> envelope->0.result == Some(value),
        r matches Err(message) ==> message@ == failure_text(
            status,
            status_line(status),
            body@,
            envelope,
        ),
{
    decode_under(status, status_text(status).as_str(), body, envelope)
}

/// Where the tunnels of an account are found: those of one name or one status
/// by a query, one of them under its id, its connections under that, and its
/// configuration at a place of its own. To look at a tunnel and to delete it is
/// asked at the same place.
pub proof fn tunnels_have_their_place(
    account: Seq<char>,
    tunnel: Seq<char>,
    name: Seq<char>,
    rules: Seq<Rule>,
)
    ensures
        ({
            let all = "/accounts/"@ + account + "/tunnels"@;
            let one = all + "/"@ + tunnel;
            let create = Call::CreateTunnel { account, name };
            let find = Call::FindTunnel { account, name };
            let list = Call::ListTunnels { account, status: name };
            let get = Call::GetTunnel { account, tunnel };
            let delete = Call::DeleteTunnel { account, tunnel };
            let close = Call::CleanupConnections { account, tunnel };
            let set = Call::SetIngress { account, tunnel, rules };
            &&& create.path() == all
            &&& find.path() == all + "?name="@ + name + "&is_deleted=false"@
            &&& list.path() == all + "?is_deleted=false&status="@ + name
            &&& get.path() == one
            &&& delete.path() == get.path()
            &&& close.path() == delete.path() + "/connections"@
            &&& set.path() == "/accounts/"@ + account + "/cfd_tunnel/"@ + tunnel
                + "/configurations"@
        }),
{
}

/// Where the DNS records of a zone are found: those of one name or one type by a
/// query, and one of them under its id.
pub proof fn records_have_their_place(
    zone: Seq<char>,
    record: Seq<char>,
    name: Seq<char>,
    target: Seq<char>,
)
    ensures
        ({
            let all = "/zones/"@ + zone + "/dns_records"@;
            let create = Call::CreateRecord { zone, name, target };
            let find = Call::FindRecord { zone, name };
            let list = Call::ListRecords { zone, kind: name };
            let delete = Call::DeleteRecord { zone, record };
            &&& create.path() == all
            &&& find.path() == all + "?name="@ + name
            &&& list.path() == all + "?type="@ + name + "&per_page=100"@
            &&& delete.path() == all + "/"@ + record
        }),
        Call::VerifyToken.path() == "/user/tokens/verify"@,
        Call::ListZones.path() == "/zones?per_page=50"@,
{
}

/// Only the three calls that take something away are made by `DELETE`, only the
/// two that create something by `POST`, and only new ingress rules by `PUT`. Just
/// the calls that create or replace something have a body.
pub proof fn methods_say_what_a_call_does(call: Call)
    ensures
        call.method() == Method::Delete <==> call is DeleteTunnel || call is DeleteRecord || call
            is CleanupConnections,
        call.method() == Method::Post <==> call is CreateTunnel || call is CreateRecord,
        call.method() == Method::Put <==> call is SetIngress,
        call.document() is Some <==> call.method() == Method::Post || call.method() == Method::Put,
{
}

/// What a granted call is answered with: a list for a search, one thing for a
/// thing that is asked for or created, and nothing for what is taken away or
/// replaced.
pub proof fn answers_fit_the_call(call: Call)
    ensures
        call.answer() == Answer::Tunnels <==> call is FindTunnel || call is ListTunnels,
        call.answer() == Answer::Records <==> call is FindRecord || call is ListRecords,
        call.answer() == Answer::Tunnel <==> call is CreateTunnel || call is GetTunnel,
        call.answer() == Answer::Record <==> call is CreateRecord,
        call.answer() == Answer::Zones <==> call is ListZones,
        call.answer() == Answer::TokenStatus <==> call is VerifyToken,
        call.answer() == Answer::Nothing <==> call.method() == Method::Delete || call is SetIngress,
{
}

/// The document of a new tunnel: its name, and that it is configured at
/// Cloudflare.
pub proof fn new_tunnels_are_described(account: Seq<char>, name: Seq<char>)
    ensures
        ({
            let call = Call::CreateTunnel { account, name };
            let members = call.document()->0->Object_0;
            &&& call.document() == Some(Json::Object(members))
            &&& members.dom() =~= set!["name"@, "config_src"@]
            &&& members["name"@] == Json::Text(name)
            &&& members["config_src"@] == Json::Text("cloudflare"@)
        }),
{
    reveal_strlit("name");
    reveal_strlit("config_src");
    assert("name"@.len() != "config_src"@.len());
}

/// The document of a new record: a proxied CNAME with an automatic lifetime,
/// under the name asked for, that leads to the target asked for.
pub proof fn new_records_are_described(zone: Seq<char>, name: Seq<char>, target: Seq<char>)
    ensures
        ({
            let call = Call::CreateRecord { zone, name, target };
            let members = call.document()->0->Object_0;
            &&& call.document() == Some(Json::Object(members))
            &&& members.dom() =~= set!["type"@, "name"@, "content"@, "proxied"@, "ttl"@]
            &&& members["type"@] == Json::Text("CNAME"@)
            &&& members["name"@] == Json::Text(name)
            &&& members["content"@] == Json::Text(target)
            &&& members["proxied"@] == Json::Bool(true)
            &&& members["ttl"@] == Json::Number(1)
        }),
{
    reveal_strlit("type");
    reveal_strlit("name");
    reveal_strlit("content");
    reveal_strlit("proxied");
    reveal_strlit("ttl");
    assert("type"@[0] == 't' && "name"@[0] == 'n' && "content"@[0] == 'c' && "proxied"@[0] == 'p');
    assert("ttl"@.len() == 3 && "type"@.len() == 4);
    let call = Call::CreateRecord { zone, name, target };
    let members = call.document()->0->Object_0;
    assert(members.dom() =~= set!["type"@, "name"@, "content"@, "proxied"@, "ttl"@]);
}

/// The document of new ingress rules: all of them, in order, each with its
/// service, and with its host name if it has one.
pub proof fn new_rules_are_described(
    account: Seq<char>,
    tunnel: Seq<char>,
    rules: Seq<Rule>,
    i: int,
)
    requires
        0 <= i < rules.len(),
    ensures
        ({
            let call = Call::SetIngress { account, tunnel, rules };
            let config = call.document()->0->Object_0["config"@]->Object_0;
            let list = config["ingress"@]->Array_0;
            let rule = list[i]->Object_0;
            &&& call.document()->0 is Object
            &&& call.document()->0->Object_0.dom() =~= set!["config"@]
            &&& config.dom() =~= set!["ingress"@]
            &&& config["ingress"@] is Array
            &&& list.len() == rules.len()
            &&& list[i] is Object
            &&& rule["service"@] == Json::Text(rules[i].service)
            &&& rules[i].hostname matches Some(host) ==> rule.dom() =~= set![
                "service"@,
                "hostname"@,
            ] && rule["hostname"@] == Json::Text(host)
            &&& rules[i].hostname is None ==> rule.dom() =~= set!["service"@]
        }),
{
    reveal_strlit("service");
    reveal_strlit("hostname");
    assert("service"@.len() != "hostname"@.len());
}

/// A request that makes a call goes to the place of the call under the base URL,
/// by its method, and carries the user's own token.
pub proof fn requests_carry_the_token(request: ApiRequest, api: CloudflareApi, call: Call)
    requires
        request.makes(api, call),
    ensures
        request.url@ == api.base@ + call.path(),
        request.method == call.method(),
        request.token@ == api.token@,
        request.answer == call.answer(),
        request.body is None <==> call.document() is None,
        call.document() matches Some(document) ==> request.body->0@ == json::json_text(document),
{
}

/// A reply is either granted or has a reason why it is not; the reason is the
/// error that came back.
pub proof fn replies_are_granted_or_refused(reply: Reply, error: Error, tunnels: Vec<Tunnel>)
    ensures
        reply.granted() <==> reply.refusal() is None,
        Reply::Tunnels(Err(error)).refusal() == Some(error),
        Reply::Tunnel(Err(error)).refusal() == Some(error),
        Reply::Records(Err(error)).refusal() == Some(error),
        Reply::Record(Err(error)).refusal() == Some(error),
        Reply::Zones(Err(error)).refusal() == Some(error),
        Reply::TokenStatus(Err(error)).refusal() == Some(error),
        Reply::Nothing(Err(error)).refusal() == Some(error),
        Reply::Nothing(Ok(())).refusal() is None,
        Reply::Tunnels(Ok(tunnels)).refusal() is None,
{
}

/// A reply is a success exactly if it could be read, has a status from 200 to
/// 299 and says so itself.
pub proof fn a_success_needs_all_three<T>(status: u16, envelope: Option<CfResponse<T>>)
    ensures
        succeeded(status, envelope) <==> envelope is Some && 200 <= status && status < 300
            && envelope->0.success,
{
}

/// A refusal is explained by the first error that the reply lists, with its code,
/// its message and what the code means. Without one, the status line has to do,
/// and what there is of a body.
pub proof fn the_first_error_explains_a_refusal<T>(
    status: u16,
    body: Seq<char>,
    reply: CfResponse<T>,
    e: ApiError,
)
    requires
        failure(status, body, Some(reply), e),
    ensures
        e is Api,
        reply.errors matches Some(errors) ==> (errors@.len() > 0 ==> e->code == errors@[0].code
            && e->message@ == errors@[0].message@),
        reply.errors is None || reply.errors->0@.len() == 0 ==> e->code is None && e->kind
            == CloudflareErrorKind::Other(0) && ("HTTP "@ + status_line(status)).is_prefix_of(
            e->message@,
        ) && (body.len() == 0 ==> e->message@ == "HTTP "@ + status_line(status)),
        e->code matches Some(code) ==> e->kind == crate::error::meaning(code),
        e->code is None ==> e->kind == CloudflareErrorKind::Other(0),
{
    let line = "HTTP "@ + status_line(status);
    assert(line.subrange(0, line.len() as int) =~= line);
    let message = bare_failure(status_line(status), body);
    assert(message.subrange(0, line.len() as int) =~= line);
}

/// A body that could not be read is given back with the status, cut at 512
/// bytes.
pub proof fn an_unreadable_body_is_shown<T>(
    status: u16,
    body: Seq<char>,
    envelope: Option<CfResponse<T>>,
    e: ApiError,
)
    requires
        envelope is None,
        failure(status, body, envelope, e),
    ensures
        e matches ApiError::NonJson { status: s, body: b } && s == status && b@
            == text::shortened(body, 512),
{
}

/// The text for a person always holds Cloudflare's own message, and says what
/// the code means: by name for the codes that are known, by number for others.
pub proof fn friendly_texts_keep_the_message(code: Option<u64>, message: Seq<char>)
    ensures
        text::has_part(friendly_text(code, message), message),
        code == Some(10429u64) ==> "Cloudflare API rate limit hit ("@.is_prefix_of(
            friendly_text(code, message),
        ),
        code == Some(81053u64) ==> "DNS record already exists ("@.is_prefix_of(
            friendly_text(code, message),
        ),
        code == Some(10001u64) || code == Some(10000u64) || code == Some(9109u64)
            ==> "Cloudflare authentication failed ("@.is_prefix_of(friendly_text(code, message)),
        code == Some(1038u64) ==> "Invalid API token ("@.is_prefix_of(friendly_text(code, message)),
        code is None ==> friendly_text(code, message) == "Cloudflare API error: "@ + message,
        code matches Some(n) ==> (n != 10429 && n != 81053 && n != 10001 && n != 10000 && n != 9109
            && n != 1038 ==> friendly_text(code, message) == "Cloudflare API error ["@
            + text::decimal(n as nat) + "]: "@ + message),
{
    let whole = friendly_text(code, message);
    let none: Seq<char> = seq![];
    match code {
        None => {
            text::parts_that_are_put_in_are_there("Cloudflare API error: "@, message, none);
            assert(whole =~= "Cloudflare API error: "@ + message + none);
        },
        Some(n) => match crate::error::meaning(n) {
            CloudflareErrorKind::RateLimited => {
                let head = "Cloudflare API rate limit hit ("@;
                let tail =
                    "). Wait a minute or two and retry — the quota resets automatically."@;
                text::parts_that_are_put_in_are_there(head, message, tail);
                assert(whole.subrange(0, head.len() as int) =~= head);
            },
            CloudflareErrorKind::DnsExists => {
                let head = "DNS record already exists ("@;
                text::parts_that_are_put_in_are_there(head, message, ")."@);
                assert(whole.subrange(0, head.len() as int) =~= head);
            },
            CloudflareErrorKind::AuthFailed => {
                let head = "Cloudflare authentication failed ("@;
                let tail =
                    "). Check that the token is valid and has the required permissions (see README for the exact permissions needed)."@;
                text::parts_that_are_put_in_are_there(head, message, tail);
                assert(whole.subrange(0, head.len() as int) =~= head);
            },
            CloudflareErrorKind::InvalidToken => {
                let head = "Invalid API token ("@;
                text::parts_that_are_put_in_are_there(head, message, ")."@);
                assert(whole.subrange(0, head.len() as int) =~= head);
            },
            CloudflareErrorKind::Other(_) => {
                let head = "Cloudflare API error ["@ + text::decimal(n as nat) + "]: "@;
                text::parts_that_are_put_in_are_there(head, message, none);
                assert(whole =~= head + message + none);
            },
        },
    }
}

/// A person is shown the first error of a refusal in its own words; without one
/// the status line and the whole body; and the same for a body that could not be
/// read. A success without a value is named as such.
pub proof fn refusals_are_shown_in_full<T>(
    status: u16,
    line: Seq<char>,
    body: Seq<char>,
    reply: CfResponse<T>,
    unread: Option<CfResponse<T>>,
)
    requires
        unread is None,
    ensures
        ({
            let shown = failure_text(status, line, body, Some(reply));
            let well = 200 <= status && status < 300 && reply.success;
            &&& well ==> shown == "API response missing 'result' field"@
            &&& !well && (reply.errors is None || reply.errors->0@.len() == 0) ==> shown
                == "HTTP "@ + line + ": "@ + body
            &&& !well && reply.errors is Some && reply.errors->0@.len() > 0 ==> shown
                == friendly_text(reply.errors->0@[0].code, reply.errors->0@[0].message@)
            &&& failure_text(status, line, body, unread) == "non-JSON response (HTTP "@ + line
                + "): "@ + body
        }),
{
}

/// The rules that are sent are the entries that were given, one for one.
pub proof fn entries_become_rules(ingress: Seq<IngressEntry>, i: int)
    requires
        0 <= i < ingress.len(),
    ensures
        rules_of(ingress).len() == ingress.len(),
        rules_of(ingress)[i].service == ingress[i].service@,
        rules_of(ingress)[i].hostname is Some <==> ingress[i].hostname is Some,
        ingress[i].hostname matches Some(host) ==> rules_of(ingress)[i].hostname == Some(host@),
{
}

/// What the calls about tunnels ask for: at the place of the account's tunnels,
/// by their own method, with the token of the user and under the base URL.
pub proof fn tunnel_requests_go_to_their_place(
    api: CloudflareApi,
    account: &str,
    tunnel: &str,
    create: ApiRequest,
    find: ApiRequest,
    list: ApiRequest,
    close: ApiRequest,
    delete: ApiRequest,
    get: ApiRequest,
)
    requires
        call_ensures(CloudflareApi::create_tunnel, (&api, account, tunnel), create),
        call_ensures(CloudflareApi::find_tunnel_by_name, (&api, account, tunnel), find),
        call_ensures(CloudflareApi::list_tunnels, (&api, account, tunnel), list),
        call_ensures(CloudflareApi::cleanup_connections, (&api, account, tunnel), close),
        call_ensures(CloudflareApi::delete_tunnel, (&api, account, tunnel), delete),
        call_ensures(CloudflareApi::tunnel_exists, (&api, account, tunnel), get),
    ensures
        ({
            let all = api.base@ + ("/accounts/"@ + account@ + "/tunnels"@);
            &&& create.url@ =~= all
            &&& find.url@ =~= all + "?name="@ + tunnel@ + "&is_deleted=false"@
            &&& list.url@ =~= all + "?is_deleted=false&status="@ + tunnel@
            &&& get.url@ =~= all + "/"@ + tunnel@
            &&& delete.url@ =~= get.url@
            &&& close.url@ =~= get.url@ + "/connections"@
            &&& create.method == Method::Post && find.method == Method::Get && list.method
                == Method::Get && get.method == Method::Get && delete.method == Method::Delete
                && close.method == Method::Delete
            &&& create.token@ == api.token@ && find.token@ == api.token@ && list.token@
                == api.token@ && get.token@ == api.token@ && delete.token@ == api.token@
                && close.token@ == api.token@
            &&& create.body is Some && find.body is None && list.body is None && get.body is None
                && delete.body is None && close.body is None
        }),
{
}

/// What the calls about records ask for, and those about the token and the zones.
pub proof fn record_requests_go_to_their_place(
    api: CloudflareApi,
    zone: &str,
    name: &str,
    target: &str,
    find: ApiRequest,
    create: ApiRequest,
    delete: ApiRequest,
    list: ApiRequest,
    verify: ApiRequest,
    zones: ApiRequest,
)
    requires
        call_ensures(CloudflareApi::find_dns_record, (&api, zone, name), find),
        call_ensures(CloudflareApi::create_dns_record, (&api, zone, name, target), create),
        call_ensures(CloudflareApi::delete_dns_record, (&api, zone, name), delete),
        call_ensures(CloudflareApi::list_dns_records, (&api, zone, name), list),
        call_ensures(CloudflareApi::verify_token, (&api,), verify),
        call_ensures(CloudflareApi::list_zones, (&api,), zones),
    ensures
        ({
            let all = api.base@ + ("/zones/"@ + zone@ + "/dns_records"@);
            &&& find.url@ =~= all + "?name="@ + name@
            &&& create.url@ =~= all
            &&& delete.url@ =~= all + "/"@ + name@
            &&& list.url@ =~= all + "?type="@ + name@ + "&per_page=100"@
            &&& verify.url@ == api.base@ + "/user/tokens/verify"@
            &&& zones.url@ == api.base@ + "/zones?per_page=50"@
            &&& find.method == Method::Get && create.method == Method::Post && delete.method
                == Method::Delete && list.method == Method::Get && verify.method == Method::Get
                && zones.method == Method::Get
            &&& find.token@ == api.token@ && create.token@ == api.token@ && delete.token@
                == api.token@ && list.token@ == api.token@ && verify.token@ == api.token@
                && zones.token@ == api.token@
            &&& create.body is Some && find.body is None && delete.body is None && list.body is None
                && verify.body is None && zones.body is None
        }),
{
}

/// New ingress rules are put at the configuration of the tunnel.
pub proof fn rules_go_to_their_place(
    api: CloudflareApi,
    account: &str,
    tunnel: &str,
    ingress: Vec<IngressEntry>,
    r: ApiRequest,
)
    requires
        call_ensures(CloudflareApi::set_tunnel_ingress, (&api, account, tunnel, &ingress), r),
    ensures
        r.url@ =~= api.base@ + ("/accounts/"@ + account@ + "/cfd_tunnel/"@ + tunnel@
            + "/configurations"@),
        r.method == Method::Put,
        r.token@ == api.token@,
        r.body is Some,
        r.answer == Answer::Nothing,
{
}

/// The API is asked with the token that was given; without a base URL of one's
/// own it is Cloudflare's.
pub proof fn apis_keep_their_token(token: &str, base: &str, a: CloudflareApi, b: CloudflareApi)
    requires
        call_ensures(CloudflareApi::new, (token,), a),
        call_ensures(CloudflareApi::with_base, (token, base), b),
    ensures
        a.token@ == token@,
        a.base@ == "https://api.cloudflare.com/client/v4"@,
        b.token@ == token@,
        b.base@ == base@,
{
}

/// A zone and a record are found by their exact name, and the first of that name
/// is taken; nothing is found exactly if there is none of that name.
pub proof fn names_are_matched_exactly(
    zones: Vec<Zone>,
    records: Vec<DnsRecord>,
    name: &str,
    zone: Option<Zone>,
    record: Option<DnsRecord>,
)
    requires
        call_ensures(find_zone, (&zones, name), zone),
        call_ensures(pick_record, (&records, name), record),
    ensures
        zone is Some <==> exists|i: int|
            0 <= i < zones@.len() && (#[trigger] zones@[i]).name@ == name@,
        zone matches Some(z) ==> z.name@ == name@ && zones@.contains(z),
        record is Some <==> exists|i: int|
            0 <= i < records@.len() && (#[trigger] records@[i]).name@ == name@,
        record matches Some(d) ==> d.name@ == name@ && records@.contains(d),
{
    the_first_zone_of_the_name_is_found(zones@, name@);
    the_first_record_of_the_name_is_picked(records@, name@);
}

/// A reply gives its value exactly if it could be read, has a status from 200 to
/// 299 and says itself that it is a success.
pub proof fn values_come_with_success<T: Default>(
    status: u16,
    body: &str,
    envelope: Option<CfResponse<T>>,
    r: Result<T, ApiError>,
)
    requires
        100 <= status <= 999,
        call_ensures(decode::<T>, (status, body, envelope), r),
    ensures
        r is Ok <==> envelope is Some && 200 <= status && status < 300 && envelope->0.success,
        r is Ok && envelope->0.result is Some ==> r->Ok_0 == envelope->0.result->0,
        r is Err && envelope is None ==> r->Err_0 is NonJson,
        r is Err && envelope is Some ==> r->Err_0 is Api,
        r is Err && envelope is Some && envelope->0.errors is Some
            && envelope->0.errors->0@.len() > 0 ==> r->Err_0->message@
            == envelope->0.errors->0@[0].message@ && r->Err_0->code
            == envelope->0.errors->0@[0].code,
        r is Err && envelope is Some && (envelope->0.errors is None
            || envelope->0.errors->0@.len() == 0) ==> r->Err_0->code is None && (
        body@.len() == 0 ==> r->Err_0->message@ == "HTTP "@ + status_line(status)) && (body@.len()
            > 0 ==> r->Err_0->message@ == "HTTP "@ + status_line(status) + ": "@ + text::shortened(
            body@,
            256,
        )),
{
}

/// A caller that needs a value gets none from a success without one.
pub proof fn values_that_are_needed_have_to_be_there<T>(
    status: u16,
    line: &str,
    body: &str,
    envelope: Option<CfResponse<T>>,
    r: Result<T, String>,
)
    requires
        call_ensures(decode_under::<T>, (status, line, body, envelope), r),
    ensures
        r is Ok <==> envelope is Some && 200 <= status && status < 300 && envelope->0.success
            && envelope->0.result is Some,
        r is Ok ==> r->Ok_0 == envelope->0.result->0,
        envelope is None ==> r->Err_0@ == "non-JSON response (HTTP "@ + line@ + "): "@ + body@,
        envelope is Some && 200 <= status && status < 300 && envelope->0.success
            && envelope->0.result is None ==> r->Err_0@ == "API response missing 'result' field"@,
{
}

/// Whatever was asked, a reply that brings something was granted, and one that
/// brings an error was not, for just that reason.
pub proof fn refusals_are_the_errors_that_came_back(reply: Reply, r: Option<Error>)
    requires
        call_ensures(Reply::failure, (reply,), r),
    ensures
        reply matches Reply::TokenStatus(back) ==> (r is None <==> back is Ok) && (back is Err
            ==> r == Some(back->Err_0)),
        reply matches Reply::Zones(back) ==> (r is None <==> back is Ok) && (back is Err ==> r
            == Some(back->Err_0)),
        reply matches Reply::Tunnel(back) ==> (r is None <==> back is Ok) && (back is Err ==> r
            == Some(back->Err_0)),
        reply matches Reply::Tunnels(back) ==> (r is None <==> back is Ok) && (back is Err ==> r
            == Some(back->Err_0)),
        reply matches Reply::Record(back) ==> (r is None <==> back is Ok) && (back is Err ==> r
            == Some(back->Err_0)),
        reply matches Reply::Records(back) ==> (r is None <==> back is Ok) && (back is Err ==> r
            == Some(back->Err_0)),
        reply matches Reply::Nothing(back) ==> (r is None <==> back is Ok) && (back is Err ==> r
            == Some(back->Err_0)),
{
}

/// Every reply answers calls of its own kind: lists of tunnels the searches for
/// tunnels, lists of records those for records, and nothing those that take
/// something away.
pub proof fn replies_fit_their_calls(call: Call, reply: Reply)
    requires
        call.answer() == reply.answer(),
    ensures
        reply is Tunnels <==> call is FindTunnel || call is ListTunnels,
        reply is Records <==> call is FindRecord || call is ListRecords,
        reply is Tunnel <==> call is CreateTunnel || call is GetTunnel,
        reply is Record <==> call is CreateRecord,
        reply is Zones <==> call is ListZones,
        reply is TokenStatus <==> call is VerifyToken,
{
}

/// A caller that needs a value, and has nothing but the status, is told the same
/// with the line of that status.
pub proof fn values_are_decoded_under_their_status<T>(
    status: u16,
    body: &str,
    envelope: Option<CfResponse<T>>,
    r: Result<T, String>,
)
    requires
        100 <= status <= 999,
        call_ensures(decode_value::<T>, (status, body, envelope), r),
    ensures
        r is Ok <==> envelope is Some && 200 <= status && status < 300 && envelope->0.success
            && envelope->0.result is Some,
        r is Ok ==> r->Ok_0 == envelope->0.result->0,
        envelope is None ==> r->Err_0@ == "non-JSON response (HTTP "@ + status_line(status) + "): "@
            + body@,
        r is Err && envelope is Some && envelope->0.errors is Some
            && envelope->0.errors->0@.len() > 0 && !(200 <= status && status < 300
            && envelope->0.success) ==> text::has_part(
            r->Err_0@,
            envelope->0.errors->0@[0].message@,
        ),
{
    if envelope is Some && envelope->0.errors is Some && envelope->0.errors->0@.len() > 0 {
        let first = envelope->0.errors->0@[0];
        friendly_texts_keep_the_message(first.code, first.message@);
    }
}

} // verus!
