//! Setting up one tunnel: clear the way, create the tunnel, write its ingress
//! rules, point DNS at it, spawn `cloudflared`.
//!
//! A [`BootStep`] is where the work stands. [`BootStep::request`] and
//! [`BootStep::spawn_token`] say what to do next, [`BootStep::advance`] and
//! [`BootStep::spawned`] take the outcome.

use vstd::prelude::*;
use vstd::string::*;

use crate::client;
use crate::client::{ApiRequest, Call, CloudflareApi, IngressEntry, Reply, Rule, Tunnel};
use crate::conflicts::{resolve_conflicts, ConflictStep};
use crate::error::Error;
use crate::event::Event;
use crate::plan::Plan;
use crate::protocol;
use crate::protocol::Protocol;
use crate::text;

verus! {

/// Where the setup of a tunnel stands.
#[derive(Debug, PartialEq, Eq)]
pub enum BootStep {
    /// Removing what is in the way.
    Resolving(ConflictStep),
    /// Creating the tunnel.
    Creating,
    /// Writing the ingress rules.
    Configuring {
        /// The new tunnel.
        tunnel_id: String,
        /// Its secret.
        token: String,
    },
    /// Creating the DNS record.
    Pointing {
        /// The new tunnel.
        tunnel_id: String,
        /// Its secret.
        token: String,
    },
    /// Deleting the new tunnel, because it could not be configured or pointed
    /// at.
    Undoing {
        /// The new tunnel.
        tunnel_id: String,
        /// What went wrong before.
        failure: BootFailure,
    },
    /// Spawning `cloudflared`.
    Spawning {
        /// The new tunnel.
        tunnel_id: String,
        /// Its secret.
        token: String,
    },
    /// `cloudflared` is running.
    Running {
        /// The live tunnel.
        tunnel_id: String,
    },
    /// There is no tunnel.
    Failed(BootFailure),
}

/// Why a tunnel could not be set up.
#[derive(Debug, PartialEq, Eq)]
pub enum BootFailure {
    /// A live tunnel has the name.
    InUse,
    /// Cloudflare created a tunnel, but gave no secret for it.
    NoToken,
    /// `cloudflared` runs, but its output cannot be read.
    NoStderr,
    /// What is in the way could not be removed.
    Conflict(Error),
    /// The tunnel could not be created.
    Create(Error),
    /// The ingress rules could not be written.
    Ingress(Error),
    /// The DNS record could not be created.
    Record(Error),
    /// `cloudflared` could not be spawned.
    Spawn(Error),
}

impl BootFailure {
    /// This failure as the library's error, for the given subdomain.
    pub fn into_error(self, subdomain: &str) -> (r: Error)
        ensures
            match self {
                BootFailure::InUse => r matches Error::SubdomainInUse(name) && name@ == subdomain@,
                BootFailure::NoToken => r matches Error::Other(message) && message@
                    == "Cloudflare returned a tunnel without a token"@,
                BootFailure::NoStderr => r matches Error::Other(message) && message@
                    == "cloudflared stderr not piped"@,
                BootFailure::Conflict(error) => r == error,
                BootFailure::Create(error) => r == error,
                BootFailure::Ingress(error) => r == error,
                BootFailure::Record(error) => r == error,
                BootFailure::Spawn(error) => r == error,
            },
    {
        match self {
            BootFailure::InUse => Error::SubdomainInUse(subdomain.to_owned()),
            BootFailure::NoToken => Error::Other(
                "Cloudflare returned a tunnel without a token".to_owned(),
            ),
            BootFailure::NoStderr => Error::Other("cloudflared stderr not piped".to_owned()),
            BootFailure::Conflict(error) => error,
            BootFailure::Create(error) => error,
            BootFailure::Ingress(error) => error,
            BootFailure::Record(error) => error,
            BootFailure::Spawn(error) => error,
        }
    }
}

/// The ingress rules of a tunnel: the public host name leads to the local
/// service, everything else to a 404.
pub open spec fn ingress_rules(plan: Plan) -> Seq<Rule> {
    seq![
        Rule {
            hostname: Some(plan.full_name@),
            service: protocol::local_target(plan.protocol.name(), plan.port),
        },
        Rule { hostname: None, service: "http_status:404"@ },
    ]
}

/// The ingress entries of a tunnel.
pub fn ingress_of(plan: &Plan) -> (r: Vec<IngressEntry>)
    ensures
        client::rules_of(r@) == ingress_rules(*plan),
{
    let first = IngressEntry {
        hostname: Some(plan.full_name.clone()),
        service: plan.protocol.local_service(plan.port),
    };
    let last = IngressEntry { hostname: None, service: "http_status:404".to_owned() };
    let mut r: Vec<IngressEntry> = Vec::new();
    r.push(first);
    r.push(last);
    r
}

/// The name that a tunnel has in DNS.
pub open spec fn tunnel_target(tunnel: Seq<char>) -> Seq<char> {
    tunnel + ".cfargotunnel.com"@
}

/// The name that a tunnel has in DNS.
pub fn cname_target(tunnel_id: &str) -> (r: String)
    ensures
        r@ == tunnel_target(tunnel_id@),
{
    let mut r = tunnel_id.to_owned();
    r.append(".cfargotunnel.com");
    r
}

/// What comes back to the setup of a tunnel.
pub enum BootInput {
    /// The reply to a call.
    Answered(Reply),
    /// The outcome of a spawn; on success, whether the output can be read.
    Spawned(Result<bool, Error>),
}

impl BootStep {
    /// The call to make at this step.
    pub open spec fn call(self, plan: Plan) -> Option<Call> {
        let account = plan.account_id@;
        match self {
            BootStep::Resolving(step) => step.call(plan),
            BootStep::Creating => Some(Call::CreateTunnel { account, name: plan.subdomain@ }),
            BootStep::Configuring { tunnel_id, .. } => Some(
                Call::SetIngress { account, tunnel: tunnel_id@, rules: ingress_rules(plan) },
            ),
            BootStep::Pointing { tunnel_id, .. } => Some(
                Call::CreateRecord {
                    zone: plan.zone_id@,
                    name: plan.full_name@,
                    target: tunnel_target(tunnel_id@),
                },
            ),
            BootStep::Undoing { tunnel_id, .. } => Some(
                Call::DeleteTunnel { account, tunnel: tunnel_id@ },
            ),
            _ => None,
        }
    }

    /// This is the outcome that the step is waiting for.
    pub open spec fn awaits(self, plan: Plan, input: BootInput) -> bool {
        match input {
            BootInput::Answered(reply) => self.call(plan) is Some && self.call(plan)->0.answer()
                == reply.answer(),
            BootInput::Spawned(_) => self is Spawning,
        }
    }

    /// The step that a reply leads to.
    pub open spec fn answered(self, plan: Plan, reply: Reply) -> BootStep {
        match self {
            BootStep::Resolving(step) => match step.next(plan, reply) {
                ConflictStep::Clear => BootStep::Creating,
                ConflictStep::InUse => BootStep::Failed(BootFailure::InUse),
                ConflictStep::Failed(error) => BootStep::Failed(BootFailure::Conflict(error)),
                next => BootStep::Resolving(next),
            },
            BootStep::Creating => match reply {
                Reply::Tunnel(Ok(tunnel)) => match tunnel.token {
                    Some(token) => BootStep::Configuring { tunnel_id: tunnel.id, token },
                    None => BootStep::Failed(BootFailure::NoToken),
                },
                other => BootStep::Failed(BootFailure::Create(other.refusal()->0)),
            },
            BootStep::Configuring { tunnel_id, token } => match reply.refusal() {
                None => BootStep::Pointing { tunnel_id, token },
                Some(error) => BootStep::Undoing {
                    tunnel_id,
                    failure: BootFailure::Ingress(error),
                },
            },
            BootStep::Pointing { tunnel_id, token } => match reply.refusal() {
                None => BootStep::Spawning { tunnel_id, token },
                Some(error) => BootStep::Undoing {
                    tunnel_id,
                    failure: BootFailure::Record(error),
                },
            },
            BootStep::Undoing { failure, .. } => BootStep::Failed(failure),
            other => other,
        }
    }

    /// The step that an outcome leads to.
    pub open spec fn next(self, plan: Plan, input: BootInput) -> BootStep {
        match input {
            BootInput::Answered(reply) => self.answered(plan, reply),
            BootInput::Spawned(outcome) => match self {
                BootStep::Spawning { tunnel_id, .. } => match outcome {
                    Ok(true) => BootStep::Running { tunnel_id },
                    Ok(false) => BootStep::Failed(BootFailure::NoStderr),
                    Err(error) => BootStep::Failed(BootFailure::Spawn(error)),
                },
                other => other,
            },
        }
    }

    /// What is announced on arriving at this step.
    pub open spec fn announced(self, plan: Plan) -> Seq<Event> {
        match self {
            BootStep::Resolving(ConflictStep::FindTunnel) => seq![
                Event::Banner,
                Event::ResolvingConflicts,
            ],
            BootStep::Creating => seq![Event::CreatingTunnel { name: plan.subdomain }],
            BootStep::Pointing { .. } => seq![
                Event::IngressConfigured { protocol: plan.protocol, port: plan.port },
            ],
            BootStep::Spawning { .. } => seq![Event::DnsCreated { full_name: plan.full_name }],
            BootStep::Running { .. } => seq![Event::CloudflaredStarted],
            BootStep::Failed(BootFailure::NoStderr) => seq![Event::CloudflaredStarted],
            _ => seq![],
        }
    }

    /// The request to send next, when the step calls for one.
    pub fn request(&self, plan: &Plan, api: &CloudflareApi) -> (r: Option<ApiRequest>)
        ensures
            match self.call(*plan) {
                Some(call) => r is Some && r->0.makes(*api, call),
                None => r is None,
            },
    {
        let account = plan.account_id.as_str();
        match self {
            BootStep::Resolving(step) => step.request(plan, api),
            BootStep::Creating => Some(api.create_tunnel(account, plan.subdomain.as_str())),
            BootStep::Configuring { tunnel_id, .. } => Some(
                api.set_tunnel_ingress(account, tunnel_id.as_str(), &ingress_of(plan)),
            ),
            BootStep::Pointing { tunnel_id, .. } => Some(
                api.create_dns_record(
                    plan.zone_id.as_str(),
                    plan.full_name.as_str(),
                    cname_target(tunnel_id.as_str()).as_str(),
                ),
            ),
            BootStep::Undoing { tunnel_id, .. } => Some(
                api.delete_tunnel(account, tunnel_id.as_str()),
            ),
            _ => None,
        }
    }

    /// The secret to spawn `cloudflared` with, when the step calls for that.
    pub fn spawn_token(&self) -> (r: Option<String>)
        ensures
            r == (match *self {
                BootStep::Spawning { token, .. } => Some(token),
                _ => None,
            }),
    {
        match self {
            BootStep::Spawning { token, .. } => Some(token.clone()),
            _ => None,
        }
    }

    /// The events to send on arriving at this step. Only the first setup of a
    /// session is announced; a respawn is quiet.
    pub fn announce(&self, plan: &Plan, is_initial: bool) -> (r: Vec<Event>)
        ensures
            r@ == if is_initial {
                self.announced(*plan)
            } else {
                seq![]
            },
    {
        let mut r: Vec<Event> = Vec::new();
        if !is_initial {
            return r;
        }
        match self {
            BootStep::Resolving(ConflictStep::FindTunnel) => {
                r.push(Event::Banner);
                r.push(Event::ResolvingConflicts);
            },
            BootStep::Creating => {
                r.push(Event::CreatingTunnel { name: plan.subdomain.clone() });
            },
            BootStep::Pointing { .. } => {
                r.push(Event::IngressConfigured { protocol: plan.protocol, port: plan.port });
            },
            BootStep::Spawning { .. } => {
                r.push(Event::DnsCreated { full_name: plan.full_name.clone() });
            },
            BootStep::Running { .. } => {
                r.push(Event::CloudflaredStarted);
            },
            BootStep::Failed(BootFailure::NoStderr) => {
                r.push(Event::CloudflaredStarted);
            },
            _ => {},
        }
        r
    }

    /// Takes the reply to the latest request.
    pub fn advance(self, plan: &Plan, reply: Reply) -> (r: BootStep)
        requires
            self.awaits(*plan, BootInput::Answered(reply)),
        ensures
            r == self.next(*plan, BootInput::Answered(reply)),
    {
        match self {
            BootStep::Resolving(step) => match step.advance(plan, reply) {
                ConflictStep::Clear => BootStep::Creating,
                ConflictStep::InUse => BootStep::Failed(BootFailure::InUse),
                ConflictStep::Failed(error) => BootStep::Failed(BootFailure::Conflict(error)),
                next => BootStep::Resolving(next),
            },
            BootStep::Creating => match reply {
                Reply::Tunnel(Ok(tunnel)) => match tunnel.token {
                    Some(token) => BootStep::Configuring { tunnel_id: tunnel.id, token },
                    None => BootStep::Failed(BootFailure::NoToken),
                },
                Reply::Tunnel(Err(error)) => BootStep::Failed(BootFailure::Create(error)),
                _ => BootStep::Creating,
            },
            BootStep::Configuring { tunnel_id, token } => match reply.failure() {
                None => BootStep::Pointing { tunnel_id, token },
                Some(error) => BootStep::Undoing {
                    tunnel_id,
                    failure: BootFailure::Ingress(error),
                },
            },
            BootStep::Pointing { tunnel_id, token } => match reply.failure() {
                None => BootStep::Spawning { tunnel_id, token },
                Some(error) => BootStep::Undoing {
                    tunnel_id,
                    failure: BootFailure::Record(error),
                },
            },
            BootStep::Undoing { failure, .. } => BootStep::Failed(failure),
            other => other,
        }
    }

    /// Takes the outcome of spawning `cloudflared`: on success, whether its
    /// output can be read.
    pub fn spawned(self, outcome: Result<bool, Error>) -> (r: BootStep)
        requires
            self is Spawning,
        ensures
            forall|plan: Plan| r == #[trigger] self.next(plan, BootInput::Spawned(outcome)),
    {
        match self {
            BootStep::Spawning { tunnel_id, .. } => match outcome {
                Ok(true) => BootStep::Running { tunnel_id },
                Ok(false) => BootStep::Failed(BootFailure::NoStderr),
                Err(error) => BootStep::Failed(BootFailure::Spawn(error)),
            },
            other => other,
        }
    }
}

/// The first step of a setup.
pub fn bootstrap_session() -> (r: BootStep)
    ensures
        r == BootStep::Resolving(ConflictStep::FindTunnel),
{
    BootStep::Resolving(resolve_conflicts())
}

/// The step reached after the given outcomes.
pub open spec fn boot_after(plan: Plan, inputs: Seq<BootInput>) -> BootStep
    decreases inputs.len(),
{
    if inputs.len() == 0 {
        BootStep::Resolving(ConflictStep::FindTunnel)
    } else {
        boot_after(plan, inputs.drop_last()).next(plan, inputs.last())
    }
}

/// Each of the outcomes is what the setup was waiting for.
pub open spec fn boot_follows(plan: Plan, inputs: Seq<BootInput>) -> bool
    decreases inputs.len(),
{
    inputs.len() == 0 || {
        &&& boot_follows(plan, inputs.drop_last())
        &&& boot_after(plan, inputs.drop_last()).awaits(plan, inputs.last())
    }
}

/// All that has been announced after the given outcomes.
pub open spec fn boot_told(plan: Plan, inputs: Seq<BootInput>) -> Seq<Event>
    decreases inputs.len(),
{
    if inputs.len() == 0 {
        boot_after(plan, inputs).announced(plan)
    } else {
        boot_told(plan, inputs.drop_last()) + boot_after(plan, inputs).announced(plan)
    }
}

/// The announcements of a setup that succeeds, in order.
pub open spec fn whole_story(plan: Plan) -> Seq<Event> {
    seq![
        Event::Banner,
        Event::ResolvingConflicts,
        Event::CreatingTunnel { name: plan.subdomain },
        Event::IngressConfigured { protocol: plan.protocol, port: plan.port },
        Event::DnsCreated { full_name: plan.full_name },
        Event::CloudflaredStarted,
    ]
}

spec fn told_so_far(step: BootStep) -> Option<int> {
    match step {
        BootStep::Resolving(_) => Some(2),
        BootStep::Creating => Some(3),
        BootStep::Configuring { .. } => Some(3),
        BootStep::Pointing { .. } => Some(4),
        BootStep::Spawning { .. } => Some(5),
        BootStep::Running { .. } => Some(6),
        _ => None,
    }
}

proof fn conflicts_do_not_start_over(step: ConflictStep, plan: Plan, reply: Reply)
    requires
        step.awaits(plan, reply),
    ensures
        !(step.next(plan, reply) is FindTunnel),
{
}

proof fn steps_tell_how_far_the_story_is(plan: Plan, inputs: Seq<BootInput>)
    requires
        boot_follows(plan, inputs),
    ensures
        boot_told(plan, inputs).is_prefix_of(whole_story(plan)),
        told_so_far(boot_after(plan, inputs)) matches Some(n) ==> boot_told(plan, inputs)
            == whole_story(plan).take(n),
        boot_after(plan, inputs) matches BootStep::Undoing { failure, .. } ==> failure is Ingress
            || failure is Record,
    decreases inputs.len(),
{
    let story = whole_story(plan);
    if inputs.len() == 0 {
        assert(boot_told(plan, inputs) =~= story.take(2));
    } else {
        let before = inputs.drop_last();
        steps_tell_how_far_the_story_is(plan, before);
        let step = boot_after(plan, before);
        let next = boot_after(plan, inputs);
        if step is Resolving {
            match inputs.last() {
                BootInput::Answered(reply) => {
                    conflicts_do_not_start_over(step->Resolving_0, plan, reply);
                },
                _ => {},
            }
        }
        assert(boot_told(plan, inputs) == boot_told(plan, before) + next.announced(plan));
        match told_so_far(next) {
            Some(n) => {
                assert(boot_told(plan, inputs) =~= story.take(n));
            },
            None => {
                if next == BootStep::Failed(BootFailure::NoStderr) {
                    assert(boot_told(plan, inputs) =~= story.take(6));
                } else {
                    assert(boot_told(plan, inputs) =~= boot_told(plan, before));
                }
            },
        }
    }
}

/// A setup announces its steps in one fixed order, each at most once, and all
/// of them once `cloudflared` is running.
pub proof fn announcements_come_in_order(plan: Plan, inputs: Seq<BootInput>)
    requires
        boot_follows(plan, inputs),
    ensures
        boot_told(plan, inputs).is_prefix_of(whole_story(plan)),
        boot_after(plan, inputs) is Running ==> boot_told(plan, inputs) == whole_story(plan),
{
    steps_tell_how_far_the_story_is(plan, inputs);
    assert(whole_story(plan).take(6) =~= whole_story(plan));
}

/// A tunnel that cannot be configured, or that DNS cannot be pointed at, is
/// deleted again, and the setup ends with the error that stood in the way.
pub proof fn a_tunnel_that_is_of_no_use_is_deleted(
    step: BootStep,
    plan: Plan,
    reply: Reply,
    last: Reply,
)
    requires
        step.awaits(plan, BootInput::Answered(reply)),
        step is Configuring || step is Pointing,
        reply.refusal() is Some,
    ensures
        ({
            let tunnel = match step {
                BootStep::Configuring { tunnel_id, .. } => tunnel_id@,
                BootStep::Pointing { tunnel_id, .. } => tunnel_id@,
                _ => seq![],
            };
            let undoing = step.next(plan, BootInput::Answered(reply));
            &&& undoing.call(plan) == Some(
                Call::DeleteTunnel { account: plan.account_id@, tunnel },
            )
            &&& undoing.next(plan, BootInput::Answered(last)) == BootStep::Failed(
                if step is Configuring {
                    BootFailure::Ingress(reply.refusal()->0)
                } else {
                    BootFailure::Record(reply.refusal()->0)
                },
            )
        }),
{
}

/// The calls that the given outcomes answer.
pub open spec fn boot_calls(plan: Plan, inputs: Seq<BootInput>) -> Seq<Call>
    decreases inputs.len(),
{
    if inputs.len() == 0 {
        seq![]
    } else {
        let before = boot_calls(plan, inputs.drop_last());
        match inputs.last() {
            BootInput::Answered(_) => before.push(
                boot_after(plan, inputs.drop_last()).call(plan)->0,
            ),
            BootInput::Spawned(_) => before,
        }
    }
}

/// The tunnel that a step has in hand.
pub open spec fn in_hand(step: BootStep) -> Option<Seq<char>> {
    match step {
        BootStep::Configuring { tunnel_id, .. } => Some(tunnel_id@),
        BootStep::Pointing { tunnel_id, .. } => Some(tunnel_id@),
        BootStep::Undoing { tunnel_id, .. } => Some(tunnel_id@),
        BootStep::Spawning { tunnel_id, .. } => Some(tunnel_id@),
        BootStep::Running { tunnel_id } => Some(tunnel_id@),
        _ => None,
    }
}

/// A tunnel that Cloudflare has created, with a secret, is never forgotten by
/// accident: it is in hand, or its deletion has been asked for, or the setup
/// ended because `cloudflared` could not be run on it.
pub proof fn created_tunnels_are_accounted_for(
    plan: Plan,
    inputs: Seq<BootInput>,
    k: int,
    tunnel: Tunnel,
)
    requires
        boot_follows(plan, inputs),
        0 <= k < inputs.len(),
        boot_after(plan, inputs.take(k)) is Creating,
        inputs[k] == BootInput::Answered(Reply::Tunnel(Ok(tunnel))),
        tunnel.token is Some,
    ensures
        ({
            let step = boot_after(plan, inputs);
            ||| in_hand(step) == Some(tunnel.id@)
            ||| boot_calls(plan, inputs).contains(
                Call::DeleteTunnel { account: plan.account_id@, tunnel: tunnel.id@ },
            )
            ||| step is Failed && inputs.last() is Spawned
        }),
    decreases inputs.len(),
{
    let before = inputs.drop_last();
    if k == before.len() {
        assert(inputs.take(k) =~= before);
    } else {
        assert(before.take(k) =~= inputs.take(k));
        created_tunnels_are_accounted_for(plan, before, k, tunnel);
        let gone = Call::DeleteTunnel { account: plan.account_id@, tunnel: tunnel.id@ };
        let calls = boot_calls(plan, before);
        let made = boot_after(plan, before).call(plan)->0;
        if calls.contains(gone) {
            let i = calls.index_of(gone);
            assert(calls.push(made)[i] == gone);
        } else if boot_after(plan, before) is Undoing {
            assert(boot_calls(plan, inputs).last() == gone);
        }
    }
}

/// The ingress rules of a setup lead the public host name to the service that
/// the plan asks for: its own protocol before `://localhost:`, its own port, in
/// decimal, after it. Everything else meets a 404.
pub proof fn traffic_goes_to_the_local_service(plan: Plan, tunnel_id: String, token: String)
    ensures
        ({
            let step = BootStep::Configuring { tunnel_id, token };
            let rules = ingress_rules(plan);
            let service = rules[0].service;
            &&& step.call(plan) == Some(
                Call::SetIngress { account: plan.account_id@, tunnel: tunnel_id@, rules },
            )
            &&& rules.len() == 2
            &&& rules[0].hostname == Some(plan.full_name@)
            &&& service == plan.protocol.name() + "://localhost:"@ + text::decimal(
                plan.port as nat,
            )
            &&& plan.protocol == Protocol::Http ==> "http://localhost:"@.is_prefix_of(service)
            &&& plan.protocol == Protocol::Https ==> "https://localhost:"@.is_prefix_of(service)
            &&& plan.protocol == Protocol::Tcp ==> "tcp://localhost:"@.is_prefix_of(service)
            &&& plan.protocol == Protocol::Udp ==> "udp://localhost:"@.is_prefix_of(service)
            &&& plan.protocol == Protocol::Ssh ==> "ssh://localhost:"@.is_prefix_of(service)
            &&& text::decimal(plan.port as nat).is_suffix_of(service)
            &&& rules[1].hostname is None
            &&& rules[1].service == "http_status:404"@
        }),
{
    reveal_strlit("http");
    reveal_strlit("https");
    reveal_strlit("tcp");
    reveal_strlit("udp");
    reveal_strlit("ssh");
    reveal_strlit("://localhost:");
    reveal_strlit("http://localhost:");
    reveal_strlit("https://localhost:");
    reveal_strlit("tcp://localhost:");
    reveal_strlit("udp://localhost:");
    reveal_strlit("ssh://localhost:");
    protocol::names_are_schemes(plan.protocol);
    let head = plan.protocol.name() + "://localhost:"@;
    let service = head + text::decimal(plan.port as nat);
    assert(service =~= ingress_rules(plan)[0].service);
    assert(service.subrange(0, head.len() as int) =~= head);
    assert(service.subrange(head.len() as int, service.len() as int) =~= text::decimal(
        plan.port as nat,
    ));
    if plan.protocol == Protocol::Http {
        assert(head =~= "http://localhost:"@);
    } else if plan.protocol == Protocol::Https {
        assert(head =~= "https://localhost:"@);
    } else if plan.protocol == Protocol::Tcp {
        assert(head =~= "tcp://localhost:"@);
    } else if plan.protocol == Protocol::Udp {
        assert(head =~= "udp://localhost:"@);
    } else {
        assert(head =~= "ssh://localhost:"@);
    }
}

/// Two plans send the same service only if they have the same protocol and the
/// same port.
pub proof fn services_are_told_apart(a: Plan, b: Plan)
    requires
        ingress_rules(a)[0].service == ingress_rules(b)[0].service,
    ensures
        a.protocol == b.protocol,
        a.port == b.port,
{
    protocol::services_tell_scheme_and_port(a.protocol, a.port, b.protocol, b.port);
}

/// The DNS record of a setup has the public host name, and points at the name
/// under `cfargotunnel.com` of the very tunnel that was set up.
pub proof fn the_record_points_at_the_tunnel(plan: Plan, tunnel_id: String, token: String)
    ensures
        ({
            let step = BootStep::Pointing { tunnel_id, token };
            step.call(plan) == Some(
                Call::CreateRecord {
                    zone: plan.zone_id@,
                    name: plan.full_name@,
                    target: tunnel_id@ + ".cfargotunnel.com"@,
                },
            )
        }),
{
}

/// A setup that has come to a running process has, in this order and as its last
/// calls, created a tunnel under the subdomain, written its ingress rules and
/// pointed the host name at it; all of this was granted, and the process was
/// spawned with the secret of that tunnel.
pub proof fn a_running_tunnel_has_been_set_up(plan: Plan, inputs: Seq<BootInput>)
    requires
        boot_follows(plan, inputs),
        boot_after(plan, inputs) is Running,
    ensures
        inputs.len() >= 4,
        ({
            let n = inputs.len() as int;
            let calls = boot_calls(plan, inputs);
            let m = calls.len() as int;
            &&& m >= 3
            &&& calls[m - 3] == (Call::CreateTunnel {
                account: plan.account_id@,
                name: plan.subdomain@,
            })
            &&& inputs[n - 1] == BootInput::Spawned(Ok(true))
            &&& inputs[n - 2] matches BootInput::Answered(pointed) && pointed.refusal() is None
            &&& inputs[n - 3] matches BootInput::Answered(configured) && configured.refusal()
                is None
            &&& inputs[n - 4] matches BootInput::Answered(Reply::Tunnel(Ok(tunnel))) && {
                &&& tunnel.token is Some
                &&& boot_after(plan, inputs.drop_last()) == (BootStep::Spawning {
                    tunnel_id: tunnel.id,
                    token: tunnel.token->0,
                })
                &&& boot_after(plan, inputs) == (BootStep::Running { tunnel_id: tunnel.id })
                &&& calls[m - 2] matches Call::SetIngress { account, tunnel: t, rules } && account
                    == plan.account_id@ && t == tunnel.id@ && rules[0].hostname == Some(
                    plan.full_name@,
                )
                &&& calls[m - 1] == (Call::CreateRecord {
                    zone: plan.zone_id@,
                    name: plan.full_name@,
                    target: tunnel.id@ + ".cfargotunnel.com"@,
                })
            }
        }),
{
    let a = inputs.drop_last();
    let b = a.drop_last();
    let c = b.drop_last();
    let d = c.drop_last();
    assert(boot_follows(plan, a));
    assert(boot_follows(plan, b));
    assert(boot_follows(plan, c));
    assert(boot_after(plan, a) is Spawning);
    assert(boot_after(plan, b) is Pointing);
    assert(boot_after(plan, c) is Configuring);
    assert(boot_after(plan, d) is Creating);
    assert(inputs[inputs.len() - 2] == a.last());
    assert(inputs[inputs.len() - 3] == b.last());
    assert(inputs[inputs.len() - 4] == c.last());
    let calls = boot_calls(plan, d);
    let made = Call::CreateTunnel { account: plan.account_id@, name: plan.subdomain@ };
    assert(boot_calls(plan, c) == calls.push(made));
    assert(boot_calls(plan, b).len() == calls.len() + 2);
    assert(boot_calls(plan, a).len() == calls.len() + 3);
    assert(boot_calls(plan, inputs) == boot_calls(plan, a));
}

/// A setup creates a tunnel only once the way is clear; a name in use and a
/// conflict that cannot be removed end it before anything has been created.
pub proof fn nothing_is_created_in_the_way(step: ConflictStep, plan: Plan, reply: Reply)
    requires
        step.awaits(plan, reply),
    ensures
        ({
            let next = BootStep::Resolving(step).next(plan, BootInput::Answered(reply));
            &&& next is Creating <==> step.next(plan, reply) is Clear
            &&& next == BootStep::Failed(BootFailure::InUse) <==> step.next(plan, reply) is InUse
            &&& step.next(plan, reply) matches ConflictStep::Failed(error) ==> next
                == BootStep::Failed(BootFailure::Conflict(error))
            &&& next is Creating || next is Failed || next == BootStep::Resolving(
                step.next(plan, reply),
            )
            &&& BootStep::Resolving(step).call(plan) == step.call(plan)
        }),
{
}

/// A tunnel that Cloudflare grants goes on to be configured, with the secret
/// that came with it; one without a secret, and one that is refused, end the
/// setup, each with its own failure. A step that is granted leads to the next
/// one with the same tunnel and the same secret.
pub proof fn each_granted_step_leads_to_the_next(
    plan: Plan,
    tunnel: Tunnel,
    error: Error,
    reply: Reply,
    token: String,
)
    ensures
        ({
            let granted = BootStep::Creating.next(
                plan,
                BootInput::Answered(Reply::Tunnel(Ok(tunnel))),
            );
            let id = tunnel.id;
            &&& tunnel.token matches Some(secret) ==> granted == (BootStep::Configuring {
                tunnel_id: id,
                token: secret,
            })
            &&& tunnel.token is None ==> granted == BootStep::Failed(BootFailure::NoToken)
            &&& BootStep::Creating.next(plan, BootInput::Answered(Reply::Tunnel(Err(error))))
                == BootStep::Failed(BootFailure::Create(error))
            &&& reply.refusal() is None ==> BootStep::Configuring { tunnel_id: id, token }.next(
                plan,
                BootInput::Answered(reply),
            ) == (BootStep::Pointing { tunnel_id: id, token })
            &&& reply.refusal() is None ==> BootStep::Pointing { tunnel_id: id, token }.next(
                plan,
                BootInput::Answered(reply),
            ) == (BootStep::Spawning { tunnel_id: id, token })
        }),
{
}

/// A process that was spawned and can be read runs the tunnel at hand; one that
/// cannot be read, or was not spawned, is a failure with its reason.
pub proof fn a_spawn_decides(
    plan: Plan,
    tunnel_id: String,
    token: String,
    outcome: Result<bool, Error>,
)
    ensures
        ({
            let next = BootStep::Spawning { tunnel_id, token }.next(
                plan,
                BootInput::Spawned(outcome),
            );
            &&& outcome == Ok::<bool, Error>(true) <==> next == (BootStep::Running { tunnel_id })
            &&& outcome == Ok::<bool, Error>(false) ==> next == BootStep::Failed(
                BootFailure::NoStderr,
            )
            &&& outcome matches Err(error) ==> next == BootStep::Failed(BootFailure::Spawn(error))
        }),
{
}

/// The announcements of a setup that came to a running process, one by one, with
/// the subdomain, the protocol, the port and the host name of its plan.
pub proof fn a_setup_tells_its_whole_story(plan: Plan, inputs: Seq<BootInput>)
    requires
        boot_follows(plan, inputs),
        boot_after(plan, inputs) is Running,
    ensures
        ({
            let told = boot_told(plan, inputs);
            &&& told.len() == 6
            &&& told[0] is Banner
            &&& told[1] is ResolvingConflicts
            &&& told[2] == (Event::CreatingTunnel { name: plan.subdomain })
            &&& told[3] == (Event::IngressConfigured { protocol: plan.protocol, port: plan.port })
            &&& told[4] == (Event::DnsCreated { full_name: plan.full_name })
            &&& told[5] is CloudflaredStarted
        }),
{
    announcements_come_in_order(plan, inputs);
}

/// A step is announced when it is reached, and not before: the rules once they
/// have been written, the record once it has been created, the process once it
/// has been spawned.
pub proof fn steps_are_announced_when_they_are_done(
    plan: Plan,
    tunnel_id: String,
    token: String,
    step: BootStep,
)
    ensures
        ({
            let configuring = BootStep::Configuring { tunnel_id, token };
            let pointing = BootStep::Pointing { tunnel_id, token };
            let spawning = BootStep::Spawning { tunnel_id, token };
            let running = BootStep::Running { tunnel_id };
            &&& BootStep::Creating.announced(plan) =~= seq![
                Event::CreatingTunnel { name: plan.subdomain },
            ]
            &&& configuring.announced(plan).len() == 0
            &&& pointing.announced(plan) =~= seq![
                Event::IngressConfigured { protocol: plan.protocol, port: plan.port },
            ]
            &&& spawning.announced(plan) =~= seq![Event::DnsCreated { full_name: plan.full_name }]
            &&& running.announced(plan) =~= seq![Event::CloudflaredStarted]
            &&& step is Failed && step != BootStep::Failed(BootFailure::NoStderr)
                ==> step.announced(plan).len() == 0
            &&& step is Undoing ==> step.announced(plan).len() == 0
        }),
{
}

/// Every step but the last ones waits for something: a call of its own, or the
/// process.
pub proof fn setups_go_on_until_they_are_over(plan: Plan, step: BootStep)
    ensures
        step.call(plan) is None <==> (step is Spawning || step is Running || step is Failed || (
        step matches BootStep::Resolving(conflict) && (conflict is Clear || conflict is InUse
            || conflict is Failed))),
        step is Creating ==> step.call(plan) == Some(
            Call::CreateTunnel { account: plan.account_id@, name: plan.subdomain@ },
        ),
        step matches BootStep::Undoing { tunnel_id, .. } ==> step.call(plan) == Some(
            Call::DeleteTunnel { account: plan.account_id@, tunnel: tunnel_id@ },
        ),
{
}

/// The entries that are made for a plan send the public host name to the service
/// of that plan: what comes before `://` is its own protocol, what comes after
/// `localhost:` its own port. Any other name meets a 404.
pub proof fn entries_lead_to_the_local_service(plan: Plan, r: Vec<IngressEntry>)
    requires
        call_ensures(ingress_of, (&plan,), r),
    ensures
        ({
            let service = r@[0].service@;
            let port = text::decimal(plan.port as nat);
            &&& r@.len() == 2
            &&& r@[0].hostname is Some && r@[0].hostname->0@ == plan.full_name@
            &&& plan.protocol == Protocol::Http ==> service == "http://localhost:"@ + port
            &&& plan.protocol == Protocol::Https ==> service == "https://localhost:"@ + port
            &&& plan.protocol == Protocol::Tcp ==> service == "tcp://localhost:"@ + port
            &&& plan.protocol == Protocol::Udp ==> service == "udp://localhost:"@ + port
            &&& plan.protocol == Protocol::Ssh ==> service == "ssh://localhost:"@ + port
            &&& r@[1].hostname is None
            &&& r@[1].service@ == "http_status:404"@
        }),
{
    reveal_strlit("http");
    reveal_strlit("https");
    reveal_strlit("tcp");
    reveal_strlit("udp");
    reveal_strlit("ssh");
    reveal_strlit("://localhost:");
    reveal_strlit("http://localhost:");
    reveal_strlit("https://localhost:");
    reveal_strlit("tcp://localhost:");
    reveal_strlit("udp://localhost:");
    reveal_strlit("ssh://localhost:");
    let rules = client::rules_of(r@);
    assert(rules.len() == r@.len());
    assert(rules[0] == r@[0]@);
    assert(rules[1] == r@[1]@);
    assert("http"@ + "://localhost:"@ =~= "http://localhost:"@);
    assert("https"@ + "://localhost:"@ =~= "https://localhost:"@);
    assert("tcp"@ + "://localhost:"@ =~= "tcp://localhost:"@);
    assert("udp"@ + "://localhost:"@ =~= "udp://localhost:"@);
    assert("ssh"@ + "://localhost:"@ =~= "ssh://localhost:"@);
}

/// Two plans get the same entries only if they lead the same host name to the
/// same protocol and the same port.
pub proof fn entries_are_told_apart(a: Plan, b: Plan, ra: Vec<IngressEntry>, rb: Vec<IngressEntry>)
    requires
        call_ensures(ingress_of, (&a,), ra),
        call_ensures(ingress_of, (&b,), rb),
        ra@[0].service@ == rb@[0].service@,
    ensures
        a.protocol == b.protocol,
        a.port == b.port,
{
    entries_lead_to_the_local_service(a, ra);
    entries_lead_to_the_local_service(b, rb);
    assert(client::rules_of(ra@)[0] == ra@[0]@);
    assert(client::rules_of(rb@)[0] == rb@[0]@);
    services_are_told_apart(a, b);
}

/// A setup begins by asking for a tunnel of the name, and spawns nothing but with
/// the secret that Cloudflare gave for the tunnel at hand.
pub proof fn setups_begin_with_a_question(
    plan: Plan,
    first: BootStep,
    step: BootStep,
    secret: Option<String>,
)
    requires
        call_ensures(bootstrap_session, (), first),
        call_ensures(BootStep::spawn_token, (&step,), secret),
    ensures
        first.call(plan) == Some(
            Call::FindTunnel { account: plan.account_id@, name: plan.subdomain@ },
        ),
        secret is Some <==> step is Spawning,
        step matches BootStep::Spawning { token, .. } ==> secret == Some(token),
{
}

/// Only the first setup of a session is announced.
pub proof fn respawns_are_quiet(step: BootStep, plan: Plan, told: Vec<Event>, quiet: Vec<Event>)
    requires
        call_ensures(BootStep::announce, (&step, &plan, true), told),
        call_ensures(BootStep::announce, (&step, &plan, false), quiet),
    ensures
        quiet@.len() == 0,
        step is Creating ==> told@ == seq![Event::CreatingTunnel { name: plan.subdomain }],
        step is Pointing ==> told@ == seq![
            Event::IngressConfigured { protocol: plan.protocol, port: plan.port },
        ],
        step is Spawning ==> told@ == seq![Event::DnsCreated { full_name: plan.full_name }],
        step is Running ==> told@ == seq![Event::CloudflaredStarted],
{
}

/// A failure is handed on as the error behind it; a name in use, a tunnel without
/// a secret and a process that cannot be read have their own.
pub proof fn failures_become_errors(failure: BootFailure, subdomain: &str, r: Error)
    requires
        call_ensures(BootFailure::into_error, (failure, subdomain), r),
    ensures
        failure is InUse ==> (r matches Error::SubdomainInUse(name) && name@ == subdomain@),
        failure matches BootFailure::Conflict(error) ==> r == error,
        failure matches BootFailure::Create(error) ==> r == error,
        failure matches BootFailure::Ingress(error) ==> r == error,
        failure matches BootFailure::Record(error) ==> r == error,
        failure matches BootFailure::Spawn(error) ==> r == error,
        failure is NoToken ==> r.described() == "Cloudflare returned a tunnel without a token"@,
        failure is NoStderr ==> r.described() == "cloudflared stderr not piped"@,
{
}

/// A step of a setup that is refused once there is a tunnel asks for its deletion
/// before the setup fails; before that there is nothing to delete.
pub proof fn refused_setups_take_their_tunnel_back(
    step: BootStep,
    plan: Plan,
    reply: Reply,
    r: BootStep,
)
    requires
        step.awaits(plan, BootInput::Answered(reply)),
        call_ensures(BootStep::advance, (step, &plan, reply), r),
    ensures
        step matches BootStep::Configuring { tunnel_id, token } ==> {
            &&& reply.refusal() matches Some(error) ==> r == (BootStep::Undoing {
                tunnel_id,
                failure: BootFailure::Ingress(error),
            })
            &&& reply.refusal() is None ==> r == (BootStep::Pointing { tunnel_id, token })
        },
        step matches BootStep::Pointing { tunnel_id, token } ==> {
            &&& reply.refusal() matches Some(error) ==> r == (BootStep::Undoing {
                tunnel_id,
                failure: BootFailure::Record(error),
            })
            &&& reply.refusal() is None ==> r == (BootStep::Spawning { tunnel_id, token })
        },
        step matches BootStep::Undoing { failure, .. } ==> r == BootStep::Failed(failure),
        step is Creating ==> {
            &&& reply matches Reply::Tunnel(Err(error)) ==> r == BootStep::Failed(
                BootFailure::Create(error),
            )
            &&& reply matches Reply::Tunnel(Ok(tunnel)) ==> (tunnel.token is None ==> r
                == BootStep::Failed(BootFailure::NoToken))
            &&& reply matches Reply::Tunnel(Ok(tunnel)) ==> (tunnel.token is Some ==> r
                == (BootStep::Configuring { tunnel_id: tunnel.id, token: tunnel.token->0 }))
        },
{
}

/// A process that runs and can be read is the end of a setup, with the tunnel at
/// hand.
pub proof fn spawned_processes_run_the_tunnel_at_hand(
    tunnel_id: String,
    token: String,
    outcome: Result<bool, Error>,
    plan: Plan,
    r: BootStep,
)
    requires
        call_ensures(
            BootStep::spawned,
            ((BootStep::Spawning { tunnel_id, token }), outcome),
            r,
        ),
    ensures
        outcome == Ok::<bool, Error>(true) ==> r == (BootStep::Running { tunnel_id }),
        outcome == Ok::<bool, Error>(false) ==> r == BootStep::Failed(BootFailure::NoStderr),
        outcome matches Err(error) ==> r == BootStep::Failed(BootFailure::Spawn(error)),
{
    let step = BootStep::Spawning { tunnel_id, token };
    assert(r == step.next(plan, BootInput::Spawned(outcome)));
}

/// Each step sends its own request, with the token of the user: the tunnel that is
/// created, configured, pointed at or taken back is named in the URL or the body.
pub proof fn setups_send_their_requests(
    step: BootStep,
    plan: Plan,
    api: CloudflareApi,
    r: Option<ApiRequest>,
)
    requires
        call_ensures(BootStep::request, (&step, &plan, &api), r),
    ensures
        ({
            let url = r->0.url@;
            let account = api.base@ + ("/accounts/"@ + plan.account_id@);
            &&& step is Spawning || step is Running || step is Failed ==> r is None
            &&& step is Creating || step is Configuring || step is Pointing || step is Undoing ==> r
                is Some
            &&& r is Some ==> r->0.token@ == api.token@
            &&& step is Creating ==> url =~= account + "/tunnels"@ && r->0.method == client::Method::Post
            &&& step matches BootStep::Configuring { tunnel_id, .. } ==> url =~= account
                + "/cfd_tunnel/"@ + tunnel_id@ + "/configurations"@ && r->0.method == client::Method::Put
            &&& step is Pointing ==> url =~= api.base@ + ("/zones/"@ + plan.zone_id@
                + "/dns_records"@) && r->0.method == client::Method::Post
            &&& step matches BootStep::Undoing { tunnel_id, .. } ==> url =~= account + "/tunnels"@
                + "/"@ + tunnel_id@ && r->0.method == client::Method::Delete
        }),
{
}

} // verus!
