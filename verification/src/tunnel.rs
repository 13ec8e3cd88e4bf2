//! Running one tunnel from the command line, for at most four hours.

use vstd::prelude::*;

use crate::bootstrap::BootFailure;
use crate::cleanup::{cleanup, DeadStatus, Sweep, SweepStep};
use crate::config;
use crate::config::{load_ready_config, Config, Credentials};
use crate::error::Error;
use crate::event::ShutdownReason;
use crate::plan;
use crate::plan::{Plan, SessionConfig};
use crate::protocol::{random_subdomain, Protocol};
use crate::protocol;
use crate::text;

verus! {

/// Tunnels are cleaned up automatically after this much time, in seconds.
pub const TUNNEL_TIMEOUT: u64 = 14400;

/// Options for starting a tunnel.
#[derive(Debug, PartialEq, Eq)]
pub struct TunnelOptions {
    /// Local protocol scheme.
    pub protocol: Protocol,
    /// Local port to forward.
    pub port: u16,
    /// Optional subdomain; a random one is generated otherwise.
    pub subdomain: Option<String>,
}

impl Clone for TunnelOptions {
    fn clone(&self) -> (r: Self)
        ensures
            r == *self,
    {
        TunnelOptions {
            protocol: self.protocol,
            port: self.port,
            subdomain: self.subdomain.clone(),
        }
    }
}

/// Whether a tunnel ends now, and why: the user's wish comes first, then the
/// age limit, then the end of the process.
pub open spec fn ending_now(exit_requested: bool, elapsed: u64, exited: bool) -> Option<
    ShutdownReason,
> {
    if exit_requested {
        Some(ShutdownReason::UserRequested)
    } else if elapsed >= TUNNEL_TIMEOUT {
        Some(ShutdownReason::Timeout)
    } else if exited {
        Some(ShutdownReason::ChildExited)
    } else {
        None
    }
}

/// One look at a running tunnel. `elapsed` is its age in seconds.
pub fn poll(exit_requested: bool, elapsed: u64, exited: bool) -> (r: Option<ShutdownReason>)
    ensures
        r == ending_now(exit_requested, elapsed, exited),
{
    if exit_requested {
        return Some(ShutdownReason::UserRequested);
    }
    if elapsed >= TUNNEL_TIMEOUT {
        return Some(ShutdownReason::Timeout);
    }
    if exited {
        return Some(ShutdownReason::ChildExited);
    }
    None
}

/// No tunnel outlives the age limit.
pub proof fn tunnels_age(exit_requested: bool, elapsed: u64, exited: bool)
    requires
        elapsed >= TUNNEL_TIMEOUT,
    ensures
        ending_now(exit_requested, elapsed, exited) is Some,
{
}

/// What the command line says of a name that is no usable subdomain.
pub open spec fn name_fault(name: Seq<char>) -> Seq<char> {
    if protocol::has_label_length(name) {
        "invalid subdomain \""@ + name
            + "\": use lowercase letters, digits and dashes, not starting/ending with a dash"@
    } else {
        "subdomain must be between 3 and 63 characters"@
    }
}

/// Validates a DNS label (subdomain) and returns a friendly error.
pub fn validate_subdomain(subdomain: &str) -> (r: Result<(), String>)
    ensures
        r is Ok <==> protocol::is_label(subdomain@),
        r matches Err(message) ==> message@ == name_fault(subdomain@),
{
    match protocol::validate_subdomain(subdomain) {
        Ok(()) => Ok(()),
        Err(_) => {
            let n: usize = text::bytes_in(subdomain);
            if n < 3 || n > 63 {
                return Err("subdomain must be between 3 and 63 characters".to_owned());
            }
            let mut r = "invalid subdomain \"".to_owned();
            r.append(subdomain);
            r.append(
                "\": use lowercase letters, digits and dashes, not starting/ending with a dash",
            );
            Err(r)
        },
    }
}

/// Why a tunnel does not run.
#[derive(Debug, PartialEq, Eq)]
pub enum RunFailure {
    /// The `cloudflared` binary could not be had.
    Binary(Error),
    /// The tunnel could not be set up.
    Setup(BootFailure),
}

/// What the command line says when a tunnel with the given subdomain does not
/// run. Of a step that stands for itself it names the step alone.
pub open spec fn run_failure(failure: RunFailure, subdomain: Seq<char>) -> Seq<char> {
    match failure {
        RunFailure::Binary(_) => "preparing cloudflared binary"@,
        RunFailure::Setup(failure) => match failure {
            BootFailure::InUse => "subdomain \""@ + subdomain
                + "\" is currently in use by an active tunnel — choose another name"@,
            BootFailure::Conflict(error) => error.described(),
            BootFailure::Create(_) => "creating Cloudflare tunnel"@,
            BootFailure::NoToken => "Cloudflare returned a tunnel without a token"@,
            BootFailure::Ingress(error) => "setting tunnel ingress: "@ + error.described(),
            BootFailure::Record(error) => "creating DNS record: "@ + error.described(),
            BootFailure::Spawn(_) => "starting cloudflared"@,
            BootFailure::NoStderr => "cloudflared stderr not piped"@,
        },
    }
}

impl RunFailure {
    /// What the command line says when a tunnel with the given subdomain does
    /// not run.
    pub fn message(&self, subdomain: &str) -> (r: String)
        ensures
            r@ == run_failure(*self, subdomain@),
    {
        match self {
            RunFailure::Binary(_) => "preparing cloudflared binary".to_owned(),
            RunFailure::Setup(failure) => match failure {
                BootFailure::InUse => {
                    let mut r = "subdomain \"".to_owned();
                    r.append(subdomain);
                    r.append("\" is currently in use by an active tunnel — choose another name");
                    r
                },
                BootFailure::Conflict(error) => error.message(),
                BootFailure::Create(_) => "creating Cloudflare tunnel".to_owned(),
                BootFailure::NoToken => {
                    "Cloudflare returned a tunnel without a token".to_owned()
                },
                BootFailure::Ingress(error) => {
                    let mut r = "setting tunnel ingress: ".to_owned();
                    r.append(error.message().as_str());
                    r
                },
                BootFailure::Record(error) => {
                    let mut r = "creating DNS record: ".to_owned();
                    r.append(error.message().as_str());
                    r
                },
                BootFailure::Spawn(_) => "starting cloudflared".to_owned(),
                BootFailure::NoStderr => "cloudflared stderr not piped".to_owned(),
            },
        }
    }
}

/// This is the tunnel that the options and the credentials ask for, under the
/// given name.
pub open spec fn named(opts: TunnelOptions, c: Credentials, name: Seq<char>, plan: Plan) -> bool {
    &&& plan.account_id == c.account_id
    &&& plan.zone_id == c.zone_id
    &&& plan.subdomain@ == name
    &&& plan.full_name@ == plan::host_name(name, c.domain@)
    &&& plan.protocol == opts.protocol
    &&& plan.port == opts.port
    &&& !plan.auto_restart
}

/// The tunnel to run under a name, and the token to make its calls with. The
/// name in the options does not count here.
pub fn run_named(opts: &TunnelOptions, c: Credentials, subdomain: String) -> (r: Result<
    (String, Plan),
    Error,
>)
    ensures
        r is Ok <==> protocol::is_label(subdomain@),
        r matches Ok((token, plan)) ==> token == c.token && named(*opts, c, subdomain@, plan),
        r matches Err(e) ==> (e matches Error::Other(message) && message@ == name_fault(
            subdomain@,
        )),
{
    match validate_subdomain(subdomain.as_str()) {
        Err(message) => {
            return Err(Error::Other(message));
        },
        Ok(()) => {},
    }
    let session = SessionConfig {
        account_id: c.account_id,
        zone_id: c.zone_id,
        domain: c.domain,
        protocol: opts.protocol,
        port: opts.port,
        subdomain,
        auto_restart: false,
    };
    match session.plan() {
        Err(e) => Err(e),
        Ok(plan) => Ok((c.token, plan)),
    }
}

/// This is the tunnel that the options and the configuration ask for. A name
/// that was given is taken in lower case; otherwise one is made up.
pub open spec fn asked_for(opts: TunnelOptions, config: Config, plan: Plan) -> bool {
    &&& Some(plan.account_id) == config.account_id
    &&& Some(plan.zone_id) == config.zone_id
    &&& match opts.subdomain {
        Some(name) => plan.subdomain@ == text::small(name@),
        None => exists|n: int|
            0 <= n < 10000 && plan.subdomain@ == #[trigger] protocol::user_name(n),
    }
    &&& plan.full_name@ == plan::host_name(plan.subdomain@, config.domain->0@)
    &&& plan.protocol == opts.protocol
    &&& plan.port == opts.port
    &&& !plan.auto_restart
}

/// The tunnel to run, and the token to make its calls with. A tunnel is refused
/// for want of credentials, or for a name that is not a valid label.
pub fn run_tunnel(opts: &TunnelOptions, config: &Config, env: Option<&str>) -> (r: Result<
    (String, Plan),
    Error,
>)
    ensures
        r is Ok <==> config.ready(config::str_view(env)) && match opts.subdomain {
            Some(name) => protocol::is_label(text::small(name@)),
            None => true,
        },
        r matches Ok((token, plan)) ==> Some(token@) == config.token_in_effect(
            config::str_view(env),
        ) && asked_for(*opts, *config, plan),
        r matches Err(e) ==> if config.ready(config::str_view(env)) {
            e matches Error::Other(message) && message@ == name_fault(
                text::small(opts.subdomain->0@),
            )
        } else {
            config::not_ready(*config, config::str_view(env), e)
        },
{
    let c = match load_ready_config(config, env) {
        Err(e) => {
            return Err(e);
        },
        Ok(c) => c,
    };
    let subdomain = match &opts.subdomain {
        Some(name) => text::small_letters(name.as_str()),
        None => random_subdomain(),
    };
    run_named(opts, c, subdomain)
}

/// A name that is a usable subdomain as it stands is run under just that name.
pub proof fn labels_keep_their_letters(name: Seq<char>)
    requires
        protocol::is_label(name),
    ensures
        text::small(name) == name,
{
    assert forall|i: int| 0 <= i < name.len() implies text::is_common(#[trigger] name[i])
        && text::small_char(name[i]) == name[i] by {
        assert(protocol::is_label_char(name[i]));
    }
    assert(text::small(name) =~= name);
}

/// The sweep of `cfp cleanup`, and the token to make its calls with. An
/// orphaned record that cannot be deleted ends it.
pub fn run_cleanup(config: &Config, env: Option<&str>) -> (r: Result<(String, Sweep), Error>)
    ensures
        r is Ok <==> config.ready(config::str_view(env)),
        r matches Ok((token, sweep)) ==> {
            &&& Some(token@) == config.token_in_effect(config::str_view(env))
            &&& sweep.well_formed()
            &&& Some(sweep.account_id@) == config::view_of(config.account_id)
            &&& Some(sweep.zone_id@) == config::view_of(config.zone_id)
            &&& Some(sweep.domain@) == config::view_of(config.domain)
            &&& sweep.strict
            &&& sweep.removed == 0
            &&& sweep.step == (SweepStep::ListTunnels { status: DeadStatus::Down })
        },
        r matches Err(e) ==> config::not_ready(*config, config::str_view(env), e),
{
    match load_ready_config(config, env) {
        Err(e) => Err(e),
        Ok(c) => {
            let sweep = cleanup(
                c.account_id.as_str(),
                c.zone_id.as_str(),
                c.domain.as_str(),
                true,
            );
            Ok((c.token, sweep))
        },
    }
}

/// A tunnel from the command line ends when the user wants it to, once it is four
/// hours old, or when its process has ended, and for no other reason. The reason
/// that comes first in this order is the one that is given.
pub proof fn command_line_tunnels_end_for_a_reason(
    exit_requested: bool,
    elapsed: u64,
    exited: bool,
    r: Option<ShutdownReason>,
)
    requires
        call_ensures(poll, (exit_requested, elapsed, exited), r),
    ensures
        r is None <==> !exit_requested && elapsed < 4 * 60 * 60 && !exited,
        r == Some(ShutdownReason::UserRequested) <==> exit_requested,
        r == Some(ShutdownReason::Timeout) <==> !exit_requested && elapsed >= 4 * 60 * 60,
        r == Some(ShutdownReason::ChildExited) <==> !exit_requested && elapsed < 4 * 60 * 60
            && exited,
{
}

/// A name is taken exactly if it is a valid label; of a name that is not, its
/// length is complained of first, and then its letters.
pub proof fn names_are_refused_for_a_reason(name: &str, r: Result<(), String>)
    requires
        call_ensures(validate_subdomain, (name,), r),
    ensures
        r is Ok <==> protocol::is_label(name@),
        r is Err && (text::byte_len(name@) < 3 || text::byte_len(name@) > 63) ==> r->Err_0@
            == "subdomain must be between 3 and 63 characters"@,
        r is Err && 3 <= text::byte_len(name@) && text::byte_len(name@) <= 63 ==> r->Err_0@
            == "invalid subdomain \""@ + name@
            + "\": use lowercase letters, digits and dashes, not starting/ending with a dash"@,
{
}

/// The tunnel that is run is the one that the options ask for, in the account, the
/// zone and the domain of the configuration, under its token. It is not restarted.
pub proof fn tunnels_are_run_as_asked_for(
    opts: TunnelOptions,
    config: Config,
    env: Option<&str>,
    r: Result<(String, Plan), Error>,
)
    requires
        call_ensures(run_tunnel, (&opts, &config, env), r),
        r is Ok,
    ensures
        ({
            let plan = r->Ok_0.1;
            &&& Some(r->Ok_0.0@) == config.token_in_effect(config::str_view(env))
            &&& Some(plan.account_id) == config.account_id
            &&& Some(plan.zone_id) == config.zone_id
            &&& config.domain is Some
            &&& plan.full_name@ == plan.subdomain@ + "."@ + config.domain->0@
            &&& opts.subdomain matches Some(name) ==> plan.subdomain@ == text::small(name@)
            &&& plan.protocol == opts.protocol
            &&& plan.port == opts.port
            &&& !plan.auto_restart
        }),
{
}

/// A tunnel without a name runs under `user-` and four digits.
pub proof fn nameless_tunnels_get_a_name(
    opts: TunnelOptions,
    config: Config,
    env: Option<&str>,
    r: Result<(String, Plan), Error>,
)
    requires
        call_ensures(run_tunnel, (&opts, &config, env), r),
        opts.subdomain is None,
        config.ready(config::str_view(env)),
    ensures
        r is Ok,
        ({
            let name = r->Ok_0.1.subdomain@;
            &&& name.len() == 9
            &&& name.take(5) == "user-"@
            &&& forall|i: int| 5 <= i < 9 ==> '0' <= #[trigger] name[i] <= '9'
        }),
{
    reveal_strlit("user-");
    let name = r->Ok_0.1.subdomain@;
    let n = choose|n: int| 0 <= n < 10000 && name == #[trigger] protocol::user_name(n);
    assert(name == protocol::user_name(n));
    assert(name.take(5) =~= "user-"@);
}

/// What the command line says names the step that failed, and the name that is
/// in use.
pub proof fn failures_name_the_step(subdomain: Seq<char>, error: Error)
    ensures
        run_failure(RunFailure::Binary(error), subdomain) == "preparing cloudflared binary"@,
        run_failure(RunFailure::Setup(BootFailure::InUse), subdomain) == "subdomain \""@ + subdomain
            + "\" is currently in use by an active tunnel — choose another name"@,
        run_failure(RunFailure::Setup(BootFailure::Conflict(error)), subdomain)
            == error.described(),
        run_failure(RunFailure::Setup(BootFailure::Create(error)), subdomain)
            == "creating Cloudflare tunnel"@,
        run_failure(RunFailure::Setup(BootFailure::NoToken), subdomain)
            == "Cloudflare returned a tunnel without a token"@,
        run_failure(RunFailure::Setup(BootFailure::Ingress(error)), subdomain)
            == "setting tunnel ingress: "@ + error.described(),
        run_failure(RunFailure::Setup(BootFailure::Record(error)), subdomain)
            == "creating DNS record: "@ + error.described(),
        run_failure(RunFailure::Setup(BootFailure::Spawn(error)), subdomain)
            == "starting cloudflared"@,
        run_failure(RunFailure::Setup(BootFailure::NoStderr), subdomain)
            == "cloudflared stderr not piped"@,
{
}

/// The cleanup of the command line is strict, and is about the account, the zone
/// and the domain of the configuration.
pub proof fn cleanups_are_about_the_configuration(
    config: Config,
    env: Option<&str>,
    r: Result<(String, Sweep), Error>,
)
    requires
        call_ensures(run_cleanup, (&config, env), r),
    ensures
        r is Ok <==> config.token_in_effect(config::str_view(env)) is Some && config.account_id
            is Some && config.zone_id is Some && config.domain is Some,
        r matches Ok((token, sweep)) ==> {
            &&& Some(token@) == config.token_in_effect(config::str_view(env))
            &&& sweep.account_id@ == config.account_id->0@
            &&& sweep.zone_id@ == config.zone_id->0@
            &&& sweep.domain@ == config.domain->0@
            &&& sweep.strict
            &&& sweep.removed == 0
        },
{
}

/// A tunnel is run under the name that is given for it, whatever the options say,
/// exactly if that is a valid label.
pub proof fn tunnels_run_under_the_name_given(
    opts: TunnelOptions,
    c: Credentials,
    name: String,
    r: Result<(String, Plan), Error>,
)
    requires
        call_ensures(run_named, (&opts, c, name), r),
    ensures
        r is Ok <==> protocol::is_label(name@),
        r matches Ok((token, plan)) ==> {
            &&& token == c.token
            &&& plan.subdomain@ == name@
            &&& plan.full_name@ == name@ + "."@ + c.domain@
            &&& plan.account_id == c.account_id
            &&& plan.zone_id == c.zone_id
            &&& plan.protocol == opts.protocol
            &&& plan.port == opts.port
            &&& !plan.auto_restart
        },
{
}

/// A tunnel is refused for want of credentials first, and then for its name.
pub proof fn tunnels_are_refused_for_a_reason(
    opts: TunnelOptions,
    config: Config,
    env: Option<&str>,
    r: Result<(String, Plan), Error>,
)
    requires
        call_ensures(run_tunnel, (&opts, &config, env), r),
    ensures
        ({
            let token = config.token_in_effect(config::str_view(env));
            let ready = token is Some && config.account_id is Some && config.zone_id is Some
                && config.domain is Some;
            let fits = opts.subdomain is None || protocol::is_label(
                text::small(opts.subdomain->0@),
            );
            &&& r is Ok <==> ready && fits
            &&& token is None ==> r->Err_0.described() == "no Cloudflare API token configured"@
            &&& token is Some && !ready ==> r->Err_0.described()
                == "account/zone not configured — run `cfp key <token>` (or `cfp domain <name>`) first"@
        }),
{
}

} // verus!
