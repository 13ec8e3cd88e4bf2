//! The commands of the command line tool, apart from what they read, write and
//! send.

use vstd::prelude::*;
use vstd::string::*;

use crate::builder;
use crate::builder::TunnelBuilder;
use crate::cli::TunnelArgs;
use crate::client;
use crate::client::{find_zone, ApiRequest, Call, CloudflareApi, Reply, Zone};
use crate::config;
use crate::config::{Config, Credentials};
use crate::error::Error;
use crate::text;
use crate::ui;
use crate::ui::{Line, Style};

verus! {

/// What is missing from a configuration, if anything is: the token, then the
/// account, the zone, the domain.
pub open spec fn missing(config: Config, env: Option<Seq<char>>, no_token: Seq<char>) -> Option<
    Seq<char>,
> {
    if config.token_in_effect(env) is None {
        Some(no_token)
    } else if config.account_id is None {
        Some("account not configured — run `cfp key <token>` first"@)
    } else if config.zone_id is None {
        Some("zone not configured — run `cfp key <token>` first"@)
    } else if config.domain is None {
        Some("domain not configured — run `cfp key <token>` first"@)
    } else {
        None
    }
}

/// These are the credentials of a configuration, or this is what it lacks.
pub open spec fn credentials_of(
    config: Config,
    env: Option<Seq<char>>,
    no_token: Seq<char>,
    r: Result<Credentials, Error>,
) -> bool {
    match missing(config, env, no_token) {
        Some(reason) => r matches Err(Error::Other(message)) && message@ == reason,
        None => {
            &&& r matches Ok(c)
            &&& Some(c.token@) == config.token_in_effect(env)
            &&& Some(c.account_id) == config.account_id
            &&& Some(c.zone_id) == config.zone_id
            &&& Some(c.domain) == config.domain
        },
    }
}

fn credentials(config: &Config, env: Option<&str>, no_token: &str) -> (r: Result<
    Credentials,
    Error,
>)
    ensures
        credentials_of(*config, config::str_view(env), no_token@, r),
{
    let token = match config.effective_token(env) {
        Some(token) => token,
        None => {
            return Err(Error::Other(no_token.to_owned()));
        },
    };
    let account_id = match &config.account_id {
        Some(id) => id.clone(),
        None => {
            return Err(
                Error::Other("account not configured — run `cfp key <token>` first".to_owned()),
            );
        },
    };
    let zone_id = match &config.zone_id {
        Some(id) => id.clone(),
        None => {
            return Err(
                Error::Other("zone not configured — run `cfp key <token>` first".to_owned()),
            );
        },
    };
    let domain = match &config.domain {
        Some(name) => name.clone(),
        None => {
            return Err(
                Error::Other("domain not configured — run `cfp key <token>` first".to_owned()),
            );
        },
    };
    Ok(Credentials { token, account_id, zone_id, domain })
}

/// The credentials for `cfp cleanup`.
pub fn handle_cleanup(config: &Config, env: Option<&str>) -> (r: Result<Credentials, Error>)
    ensures
        credentials_of(
            *config,
            config::str_view(env),
            "no token configured — run `cfp key <token>` first"@,
            r,
        ),
{
    credentials(config, env, "no token configured — run `cfp key <token>` first")
}

/// The tunnel that the arguments and the configuration ask for.
pub fn run_tunnel_command(args: &TunnelArgs, config: &Config, env: Option<&str>) -> (r: Result<
    TunnelBuilder,
    Error,
>)
    ensures
        match missing(*config, config::str_view(env), "no Cloudflare API token configured"@) {
            Some(reason) => r matches Err(Error::Other(message)) && message@ == reason,
            None => {
                &&& r matches Ok(b)
                &&& config::view_of(b.token) == config.token_in_effect(config::str_view(env))
                &&& config::view_of(b.account_id) == config::view_of(config.account_id)
                &&& config::view_of(b.zone_id) == config::view_of(config.zone_id)
                &&& config::view_of(b.domain) == config::view_of(config.domain)
                &&& b.protocol == args.protocol
                &&& b.port == args.port
                &&& match args.subdomain {
                    Some(name) => builder::holds(b.subdomain, name@),
                    None => builder::holds(b.subdomain, seq![]),
                }
                &&& b.binary_path is None
                &&& b.config_dir is None
                &&& b.github_proxy is None
                &&& !b.auto_restart
            },
        },
{
    match credentials(config, env, "no Cloudflare API token configured") {
        Err(e) => Err(e),
        Ok(c) => {
            let b = TunnelBuilder::new().token(c.token.as_str()).account(
                c.account_id.as_str(),
            ).zone(c.zone_id.as_str()).domain(c.domain.as_str()).protocol(args.protocol).port(
                args.port,
            );
            let subdomain = match &args.subdomain {
                Some(name) => name.clone(),
                None => String::new(),
            };
            Ok(b.subdomain(subdomain.as_str()))
        },
    }
}

/// The token for a command that needs nothing else.
pub fn command_token(config: &Config, env: Option<&str>) -> (r: Result<String, Error>)
    ensures
        match config.token_in_effect(config::str_view(env)) {
            Some(token) => r matches Ok(t) && t@ == token,
            None => r matches Err(Error::Other(message)) && message@
                == "no token configured — run `cfp key <token>` first"@,
        },
{
    match config.effective_token(env) {
        Some(token) => Ok(token),
        None => Err(
            Error::Other("no token configured — run `cfp key <token>` first".to_owned()),
        ),
    }
}

/// The text of an error with what was being done.
pub open spec fn in_context(context: Seq<char>, error: Error) -> Seq<char> {
    context + ": "@ + error.described()
}

fn with_context(context: &str, error: &Error) -> (r: String)
    ensures
        r@ == in_context(context@, *error),
{
    let mut r = context.to_owned();
    r.append(": ");
    r.append(error.message().as_str());
    r
}

/// The configuration after `cfp domain`: that of the zone with exactly this
/// name.
pub fn handle_domain(config: Config, domain: &str, zones: Result<Vec<Zone>, Error>) -> (r: Result<
    Config,
    String,
>)
    ensures
        match zones {
            Err(e) => r matches Err(message) && message@ == in_context(
                "looking up zone \""@ + domain@ + "\""@,
                e,
            ),
            Ok(zones) => match client::zone_named(zones@, domain@) {
                Some(zone) => r == Ok::<Config, String>(
                    Config {
                        token: config.token,
                        account_id: Some(zone.account.id),
                        zone_id: Some(zone.id),
                        domain: Some(zone.name),
                    },
                ),
                None => r matches Err(message) && message@ == "zone \""@ + domain@
                    + "\" is not accessible with the saved token"@,
            },
        },
{
    match zones {
        Err(e) => {
            let mut context = "looking up zone \"".to_owned();
            context.append(domain);
            context.append("\"");
            Err(with_context(context.as_str(), &e))
        },
        Ok(zones) => match find_zone(&zones, domain) {
            Some(zone) => {
                let mut config = config;
                config.apply_zone(&zone);
                Ok(config)
            },
            None => {
                let mut message = "zone \"".to_owned();
                message.append(domain);
                message.append("\" is not accessible with the saved token");
                Err(message)
            },
        },
    }
}

/// What is shown once the domain has been switched.
pub fn switched(domain: &str) -> (r: Line)
    ensures
        r.is(ui::success_text("Switched to "@ + domain@ + "."@)),
{
    let mut message = "Switched to ".to_owned();
    message.append(domain);
    message.append(".");
    ui::success(message.as_str())
}

/// Where `cfp key` stands.
#[derive(Debug, PartialEq, Eq)]
pub enum KeyStep {
    /// All credentials are to be forgotten.
    Clear,
    /// The status is to be shown.
    Show,
    /// The token is to be verified.
    Verify {
        /// The token.
        token: String,
    },
    /// The token is valid; its zones are to be listed.
    List {
        /// The token.
        token: String,
        /// What Cloudflare says of it.
        status: String,
    },
    /// This configuration is to be saved.
    Save {
        /// The configuration.
        config: Config,
        /// The zones that the token can access; the first is in use.
        zones: Vec<Zone>,
    },
    /// The token cannot be used.
    Failed(String),
}

/// Implements `cfp key [token] [--clear]`: what there is to do.
pub fn handle_key(token: Option<&str>, clear: bool) -> (r: KeyStep)
    ensures
        if clear {
            r is Clear
        } else {
            match token {
                None => r is Show,
                Some(token) => if text::trim(token@).len() == 0 {
                    r matches KeyStep::Failed(message) && message@
                        == "empty token — pass a non-empty value"@
                } else {
                    r matches KeyStep::Verify { token: t } && t@ == text::trim(token@)
                },
            }
        },
        clear ==> r.saves() == Some(Config::nothing()) && r.call() is None,
        !clear ==> r.saves() is None,
{
    if clear {
        return KeyStep::Clear;
    }
    match token {
        None => KeyStep::Show,
        Some(token) => {
            let trimmed = text::trimmed(token);
            if trimmed.as_str().is_empty() {
                KeyStep::Failed("empty token — pass a non-empty value".to_owned())
            } else {
                KeyStep::Verify { token: trimmed }
            }
        },
    }
}

impl KeyStep {
    /// The configuration to store at this step; without one, what is stored
    /// stays as it is.
    pub open spec fn saves(self) -> Option<Config> {
        match self {
            KeyStep::Clear => Some(Config::nothing()),
            KeyStep::Save { config, .. } => Some(config),
            _ => None,
        }
    }

    /// What is stored after this step, given what was stored before.
    pub open spec fn stored(self, before: Config) -> Config {
        match self.saves() {
            Some(config) => config,
            None => before,
        }
    }

    /// The configuration to store at this step.
    pub fn to_save(&self) -> (r: Option<Config>)
        ensures
            r == self.saves(),
    {
        match self {
            KeyStep::Clear => Some(Config::default()),
            KeyStep::Save { config, .. } => Some(config.clone()),
            _ => None,
        }
    }

    /// The call to make at this step.
    pub open spec fn call(self) -> Option<Call> {
        match self {
            KeyStep::Verify { .. } => Some(Call::VerifyToken),
            KeyStep::List { .. } => Some(Call::ListZones),
            _ => None,
        }
    }

    /// This reply answers the call made at this step.
    pub open spec fn awaits(self, reply: Reply) -> bool {
        self.call() is Some && self.call()->0.answer() == reply.answer()
    }

    /// The step that a reply leads to. A token is saved only once it has been
    /// verified and can access a zone; the first zone is taken.
    pub open spec fn leads_to(self, reply: Reply, next: KeyStep) -> bool {
        match self {
            KeyStep::Verify { token } => match reply {
                Reply::TokenStatus(Ok(status)) => next == (KeyStep::List {
                    token,
                    status: status.status,
                }),
                other => next matches KeyStep::Failed(message) && message@ == in_context(
                    "verifying token (check the value, network, or permissions)"@,
                    other.refusal()->0,
                ),
            },
            KeyStep::List { token, .. } => match reply {
                Reply::Zones(Ok(zones)) => if zones@.len() == 0 {
                    next matches KeyStep::Failed(message) && message@
                        == "token is valid but has access to no zones — add a Zone:Read resource to the token"@
                } else {
                    next == (KeyStep::Save {
                        config: Config {
                            token: Some(token),
                            account_id: Some(zones@[0].account.id),
                            zone_id: Some(zones@[0].id),
                            domain: Some(zones@[0].name),
                        },
                        zones,
                    })
                },
                other => next matches KeyStep::Failed(message) && message@ == in_context(
                    "listing accessible zones — make sure the token has Zone:Read on at least one zone"@,
                    other.refusal()->0,
                ),
            },
            done => next == done,
        }
    }

    /// The API as the token at hand sees it, when there is something to ask.
    pub fn api(&self) -> (r: Option<CloudflareApi>)
        ensures
            match *self {
                KeyStep::Verify { token } => r is Some && r->0.token@ == token@ && r->0.base@
                    == client::CF_API_BASE@,
                KeyStep::List { token, .. } => r is Some && r->0.token@ == token@ && r->0.base@
                    == client::CF_API_BASE@,
                _ => r is None,
            },
    {
        match self {
            KeyStep::Verify { token } => Some(CloudflareApi::new(token.as_str())),
            KeyStep::List { token, .. } => Some(CloudflareApi::new(token.as_str())),
            _ => None,
        }
    }

    /// The request to send next, when there is one.
    pub fn request(&self, api: &CloudflareApi) -> (r: Option<ApiRequest>)
        ensures
            match self.call() {
                Some(call) => r is Some && r->0.makes(*api, call),
                None => r is None,
            },
    {
        match self {
            KeyStep::Verify { .. } => Some(api.verify_token()),
            KeyStep::List { .. } => Some(api.list_zones()),
            _ => None,
        }
    }

    /// Takes the reply to the latest request.
    pub fn advance(self, reply: Reply) -> (r: KeyStep)
        requires
            self.awaits(reply),
        ensures
            self.leads_to(reply, r),
    {
        match self {
            KeyStep::Verify { token } => match reply {
                Reply::TokenStatus(Ok(status)) => KeyStep::List { token, status: status.status },
                Reply::TokenStatus(Err(e)) => KeyStep::Failed(
                    with_context("verifying token (check the value, network, or permissions)", &e),
                ),
                _ => KeyStep::Verify { token },
            },
            KeyStep::List { token, status } => match reply {
                Reply::Zones(Ok(zones)) => {
                    if zones.len() == 0 {
                        return KeyStep::Failed(
                            "token is valid but has access to no zones — add a Zone:Read resource to the token".to_owned(),
                        );
                    }
                    let mut config = Config {
                        token: Some(token),
                        account_id: None,
                        zone_id: None,
                        domain: None,
                    };
                    config.apply_zone(&zones[0]);
                    KeyStep::Save { config, zones }
                },
                Reply::Zones(Err(e)) => KeyStep::Failed(
                    with_context(
                        "listing accessible zones — make sure the token has Zone:Read on at least one zone",
                        &e,
                    ),
                ),
                _ => KeyStep::List { token, status },
            },
            done => done,
        }
    }
}

/// `cfp key` stores nothing of a token that Cloudflare does not vouch for: what
/// is stored changes only once the token has been verified and its zones, at
/// least one, have been listed.
pub proof fn a_token_in_doubt_is_not_stored(
    step: KeyStep,
    reply: Reply,
    next: KeyStep,
    before: Config,
)
    requires
        step.awaits(reply),
        step.leads_to(reply, next),
    ensures
        step.stored(before) == before,
        next.stored(before) == (match (step, reply) {
            (KeyStep::List { token, .. }, Reply::Zones(Ok(zones))) => if zones@.len() > 0 {
                Config {
                    token: Some(token),
                    account_id: Some(zones@[0].account.id),
                    zone_id: Some(zones@[0].id),
                    domain: Some(zones@[0].name),
                }
            } else {
                before
            },
            _ => before,
        }),
{
}

/// What `cfp key` shows on arriving at a step. `config` is the configuration
/// before the command.
pub open spec fn key_page(step: KeyStep, config: Config, env: Option<Seq<char>>) -> Seq<
    Seq<(Style, Seq<char>)>,
> {
    match step {
        KeyStep::Clear => seq![ui::success_text("All credentials cleared."@)] + ui::status_page(
            Config::nothing(),
            env,
        ),
        KeyStep::Show => ui::status_page(config, env),
        KeyStep::Verify { .. } => seq![
            ui::indented(Style::Dimmed, "Verifying token with Cloudflare..."@),
        ],
        KeyStep::List { status, .. } => seq![
            ui::success_text("Token verified (status: "@ + status@ + ")."@),
        ],
        KeyStep::Save { config: saved, zones } => {
            let domain = config::view_of(saved.domain)->0;
            if zones@.len() == 1 {
                seq![
                    ui::success_text("Saved. Tunnels will be exposed under "@ + domain + "."@),
                ] + ui::status_page(saved, env)
            } else {
                seq![ui::nothing(), ui::one(Style::Bold, "Multiple zones are accessible:"@)]
                    + ui::zones_page(zones@, Some(domain)) + seq![
                    ui::success_text(
                        "Saved (default domain: "@ + domain
                            + "). Switch with `cfp domain <name>`."@,
                    ),
                ]
            }
        },
        KeyStep::Failed(_) => seq![],
    }
}

/// Shows one page after another.
fn join_pages(first: Vec<Line>, second: Vec<Line>) -> (r: Vec<Line>)
    ensures
        ui::page(r@) == ui::page(first@) + ui::page(second@),
        ui::all_to(first@, false) && ui::all_to(second@, false) ==> ui::all_to(r@, false),
{
    let mut r = first;
    let mut second = second;
    let ghost tail = second@;
    r.append(&mut second);
    assert(r@ =~= first@ + tail);
    assert(ui::page(r@) =~= ui::page(first@) + ui::page(tail));
    r
}

fn page_of_one(line: Line) -> (r: Vec<Line>)
    ensures
        r@ == seq![line],
        ui::page(r@) == seq![line.says()],
{
    let mut r: Vec<Line> = Vec::new();
    r.push(line);
    assert(ui::page(r@) =~= seq![line.says()]);
    r
}

impl KeyStep {
    /// Shows what has come of the command on arriving at this step.
    pub fn lines(&self, config: &Config, env: Option<&str>) -> (r: Vec<Line>)
        requires
            *self matches KeyStep::Save { config: saved, .. } ==> saved.domain is Some,
        ensures
            ui::page(r@) == key_page(*self, *config, config::str_view(env)),
            ui::all_to(r@, false),
    {
        match self {
            KeyStep::Clear => {
                let head = page_of_one(ui::success("All credentials cleared."));
                join_pages(head, ui::key_status(&Config::default(), env))
            },
            KeyStep::Show => ui::key_status(config, env),
            KeyStep::Verify { .. } => page_of_one(
                ui::indent(Style::Dimmed, "Verifying token with Cloudflare..."),
            ),
            KeyStep::List { status, .. } => {
                let mut message = "Token verified (status: ".to_owned();
                message.append(status.as_str());
                message.append(").");
                page_of_one(ui::success(message.as_str()))
            },
            KeyStep::Save { config: saved, zones } => {
                let domain = match &saved.domain {
                    Some(name) => name.clone(),
                    None => String::new(),
                };
                if zones.len() == 1 {
                    let mut message = "Saved. Tunnels will be exposed under ".to_owned();
                    message.append(domain.as_str());
                    message.append(".");
                    let head = page_of_one(ui::success(message.as_str()));
                    join_pages(head, ui::key_status(saved, env))
                } else {
                    let blank = page_of_one(ui::line_of_none());
                    let title = page_of_one(
                        ui::line_of_one(false, Style::Bold, "Multiple zones are accessible:"),
                    );
                    let list = ui::zones(zones, Some(domain.as_str()));
                    let mut message = "Saved (default domain: ".to_owned();
                    message.append(domain.as_str());
                    message.append("). Switch with `cfp domain <name>`.");
                    let last = page_of_one(ui::success(message.as_str()));
                    let head = join_pages(blank, title);
                    let r = join_pages(join_pages(head, list), last);
                    assert(ui::page(r@) =~= key_page(*self, *config, config::str_view(env)));
                    r
                }
            },
            KeyStep::Failed(_) => {
                let r: Vec<Line> = Vec::new();
                assert(ui::page(r@) =~= seq![]);
                r
            },
        }
    }
}

/// A command is refused for the first thing that is missing, in this order: the
/// token, the account, the zone, the domain. Credentials that are complete are
/// those of the configuration.
pub proof fn what_is_missing_first_is_told(
    config: Config,
    env: Option<&str>,
    r: Result<Credentials, Error>,
)
    requires
        call_ensures(handle_cleanup, (&config, env), r),
    ensures
        ({
            let token = config.token_in_effect(config::str_view(env));
            let said = r->Err_0.described();
            &&& r is Ok <==> token is Some && config.account_id is Some && config.zone_id is Some
                && config.domain is Some
            &&& token is None ==> said == "no token configured — run `cfp key <token>` first"@
            &&& token is Some && config.account_id is None ==> said
                == "account not configured — run `cfp key <token>` first"@
            &&& token is Some && config.account_id is Some && config.zone_id is None ==> said
                == "zone not configured — run `cfp key <token>` first"@
            &&& token is Some && config.account_id is Some && config.zone_id is Some
                && config.domain is None ==> said
                == "domain not configured — run `cfp key <token>` first"@
            &&& r matches Ok(c) ==> Some(c.token@) == token && Some(c.account_id)
                == config.account_id && Some(c.zone_id) == config.zone_id && Some(c.domain)
                == config.domain
        }),
{
}

/// The tunnel of the command line has the protocol, the port and the subdomain of
/// the arguments, and the credentials of the configuration.
pub proof fn arguments_become_a_tunnel(
    args: TunnelArgs,
    config: Config,
    env: Option<&str>,
    r: Result<TunnelBuilder, Error>,
)
    requires
        call_ensures(run_tunnel_command, (&args, &config, env), r),
    ensures
        r is Ok <==> config.token_in_effect(config::str_view(env)) is Some && config.account_id
            is Some && config.zone_id is Some && config.domain is Some,
        r matches Ok(b) ==> {
            &&& b.protocol == args.protocol
            &&& b.port == args.port
            &&& b.subdomain is Some
            &&& args.subdomain matches Some(name) ==> b.subdomain->0@ == name@
            &&& args.subdomain is None ==> b.subdomain->0@.len() == 0
            &&& b.token is Some && Some(b.token->0@) == config.token_in_effect(
                config::str_view(env),
            )
            &&& b.account_id is Some && b.account_id->0@ == config.account_id->0@
            &&& b.zone_id is Some && b.zone_id->0@ == config.zone_id->0@
            &&& b.domain is Some && b.domain->0@ == config.domain->0@
            &&& !b.auto_restart
        },
        config.token_in_effect(config::str_view(env)) is None ==> r->Err_0.described()
            == "no Cloudflare API token configured"@,
{
    if let Ok(b) = r {
        assert(config::view_of(b.token) == config.token_in_effect(config::str_view(env)));
        assert(config::view_of(b.account_id) == config::view_of(config.account_id));
        assert(config::view_of(b.zone_id) == config::view_of(config.zone_id));
        assert(config::view_of(b.domain) == config::view_of(config.domain));
    }
}

/// A command that needs the token alone gets the one in effect.
pub proof fn commands_get_the_token(config: Config, env: Option<&str>, r: Result<String, Error>)
    requires
        call_ensures(command_token, (&config, env), r),
    ensures
        r is Ok <==> config.token_in_effect(config::str_view(env)) is Some,
        r is Ok ==> Some(r->Ok_0@) == config.token_in_effect(config::str_view(env)),
        r is Err ==> r->Err_0.described() == "no token configured — run `cfp key <token>` first"@,
{
}

/// The domain is switched exactly if there is a zone of that very name, and then
/// account, zone and domain are those of that zone. The token stays.
pub proof fn domains_are_switched_to_their_zone(
    config: Config,
    domain: &str,
    zones: Vec<Zone>,
    r: Result<Config, String>,
)
    requires
        call_ensures(
            handle_domain,
            (config, domain, Ok::<Vec<Zone>, Error>(zones)),
            r,
        ),
    ensures
        r is Ok <==> exists|i: int|
            0 <= i < zones@.len() && (#[trigger] zones@[i]).name@ == domain@,
        r matches Ok(next) ==> next.token == config.token && exists|i: int|
            0 <= i < zones@.len() && (#[trigger] zones@[i]).name@ == domain@ && next.domain == Some(
                zones@[i].name,
            ) && next.zone_id == Some(zones@[i].id) && next.account_id == Some(
                zones@[i].account.id,
            ),
        r is Err ==> r->Err_0@ == "zone \""@ + domain@
            + "\" is not accessible with the saved token"@,
{
    client::the_first_zone_of_the_name_is_found(zones@, domain@);
}

/// A look-up that fails switches nothing, and says what was looked for and why it
/// failed.
pub proof fn failed_look_ups_switch_nothing(
    config: Config,
    domain: &str,
    error: Error,
    r: Result<Config, String>,
)
    requires
        call_ensures(
            handle_domain,
            (config, domain, Err::<Vec<Zone>, Error>(error)),
            r,
        ),
    ensures
        r is Err,
        r->Err_0@ == "looking up zone \""@ + domain@ + "\""@ + ": "@ + error.described(),
{
}

/// `cfp key` forgets, shows or verifies: to forget goes first, to show is for
/// those who give no token, and a token is verified without the white space
/// around it. One of nothing else is refused.
pub proof fn keys_are_forgotten_shown_or_verified(token: Option<&str>, clear: bool, r: KeyStep)
    requires
        call_ensures(handle_key, (token, clear), r),
    ensures
        r is Clear <==> clear,
        r is Show <==> !clear && token is None,
        r is Verify <==> !clear && token is Some && text::trim(token->0@).len() > 0,
        r is Failed <==> !clear && token is Some && text::trim(token->0@).len() == 0,
        r matches KeyStep::Verify { token: t } ==> t@ == text::trim(token->0@),
        r.call() is Some <==> r is Verify,
        r is Verify ==> r.call() == Some(Call::VerifyToken),
{
}

/// A token goes the whole way: once it has been verified its zones are listed,
/// and once there is one, the first is saved with it. A refusal ends it, with the
/// reason.
pub proof fn keys_go_the_whole_way(step: KeyStep, reply: Reply, r: KeyStep)
    requires
        step.awaits(reply),
        call_ensures(KeyStep::advance, (step, reply), r),
    ensures
        step matches KeyStep::Verify { token } ==> {
            &&& reply.refusal() is None ==> r is List && r->List_token == token && r.call()
                == Some(Call::ListZones)
            &&& reply matches Reply::TokenStatus(Ok(status)) ==> r->List_status == status.status
            &&& reply.refusal() matches Some(error) ==> r is Failed && r->Failed_0@
                == "verifying token (check the value, network, or permissions)"@ + ": "@
                + error.described()
        },
        step matches KeyStep::List { token, .. } ==> {
            &&& reply matches Reply::Zones(Ok(zones)) ==> (zones@.len() > 0 ==> r is Save
                && r->Save_config.token == Some(token) && r->Save_config.zone_id == Some(
                zones@[0].id,
            ) && r->Save_config.account_id == Some(zones@[0].account.id) && r->Save_config.domain
                == Some(zones@[0].name) && r->Save_zones == zones)
            &&& reply matches Reply::Zones(Ok(zones)) ==> (zones@.len() == 0 ==> r is Failed
                && r->Failed_0@
                == "token is valid but has access to no zones — add a Zone:Read resource to the token"@)
            &&& reply.refusal() matches Some(error) ==> r is Failed && r->Failed_0@
                == "listing accessible zones — make sure the token has Zone:Read on at least one zone"@
                + ": "@ + error.described()
        },
{
}

/// What there is to save is nothing at all after a token is to be forgotten, the
/// new configuration after one has been accepted, and otherwise nothing is saved.
pub proof fn only_accepted_keys_are_saved(step: KeyStep, r: Option<Config>)
    requires
        call_ensures(KeyStep::to_save, (&step,), r),
    ensures
        r is Some <==> step is Clear || step is Save,
        step is Clear ==> r->0.token is None && r->0.account_id is None && r->0.zone_id is None
            && r->0.domain is None,
        step matches KeyStep::Save { config, .. } ==> r == Some(config),
{
}

/// Each step is answered on the screen: what was forgotten, verified, saved; a
/// failure is left to the message.
pub proof fn keys_are_answered(step: KeyStep, config: Config, env: Option<Seq<char>>)
    ensures
        step is Show ==> key_page(step, config, env) == ui::status_page(config, env),
        step is Clear ==> key_page(step, config, env)[0] == ui::success_text(
            "All credentials cleared."@,
        ),
        step is Clear ==> key_page(step, config, env).skip(1) == ui::status_page(
            Config::nothing(),
            env,
        ),
        step is Verify ==> key_page(step, config, env) == seq![
            ui::indented(Style::Dimmed, "Verifying token with Cloudflare..."@),
        ],
        step matches KeyStep::Save { config: saved, zones } ==> (zones@.len() == 1
            ==> key_page(step, config, env).skip(1) == ui::status_page(saved, env)),
        step matches KeyStep::List { status, .. } ==> key_page(step, config, env) == seq![
            ui::success_text("Token verified (status: "@ + status@ + ")."@),
        ],
        step matches KeyStep::Save { config: saved, zones } ==> (zones@.len() == 1
            ==> key_page(step, config, env)[0] == ui::success_text(
            "Saved. Tunnels will be exposed under "@ + config::view_of(saved.domain)->0 + "."@,
        )),
        step matches KeyStep::Save { config: saved, zones } ==> (zones@.len() > 1
            ==> key_page(step, config, env).last() == ui::success_text(
            "Saved (default domain: "@ + config::view_of(saved.domain)->0
                + "). Switch with `cfp domain <name>`."@,
        )),
        step is Failed ==> key_page(step, config, env).len() == 0,
{
    let page = key_page(step, config, env);
    if step is Clear {
        assert(page.skip(1) =~= ui::status_page(Config::nothing(), env));
    } else if let KeyStep::Save { config: saved, zones } = step {
        if zones@.len() == 1 {
            assert(page.skip(1) =~= ui::status_page(saved, env));
        }
    }
}

/// What is shown on arriving at a step is the page of that step, on standard
/// output.
pub proof fn steps_show_their_page(step: KeyStep, config: Config, env: Option<&str>, r: Vec<Line>)
    requires
        step matches KeyStep::Save { config: saved, .. } ==> saved.domain is Some,
        call_ensures(KeyStep::lines, (&step, &config, env), r),
    ensures
        ui::page(r@) == key_page(step, config, config::str_view(env)),
        ui::all_to(r@, false),
        step is Failed ==> r@.len() == 0,
        step is Verify || step is List ==> r@.len() == 1,
{
    assert(ui::page(r@).len() == r@.len());
}

/// The request that is sent at a step is about the token at hand.
pub proof fn keys_send_their_requests(step: KeyStep, api: CloudflareApi, r: Option<ApiRequest>)
    requires
        call_ensures(KeyStep::request, (&step, &api), r),
    ensures
        r is Some <==> step is Verify || step is List,
        step is Verify ==> r->0.url@ == api.base@ + "/user/tokens/verify"@,
        step is List ==> r->0.url@ == api.base@ + "/zones?per_page=50"@,
        r is Some ==> r->0.token@ == api.token@,
{
}

/// A token is asked about with itself, at Cloudflare; there is nothing to ask once
/// it has been saved, shown, forgotten or refused.
pub proof fn keys_are_asked_about_with_themselves(step: KeyStep, r: Option<CloudflareApi>)
    requires
        call_ensures(KeyStep::api, (&step,), r),
    ensures
        r is Some <==> step is Verify || step is List,
        step matches KeyStep::Verify { token } ==> r->0.token@ == token@,
        step matches KeyStep::List { token, .. } ==> r->0.token@ == token@,
        r is Some ==> r->0.base@ == "https://api.cloudflare.com/client/v4"@,
{
}

/// The domain that was switched to is told.
pub proof fn switched_domains_are_told(domain: &str, r: Line)
    requires
        call_ensures(switched, (domain,), r),
    ensures
        !r.to_stderr,
        r.says().last() == (Style::Plain, "Switched to "@ + domain@ + "."@),
{
}

} // verus!
