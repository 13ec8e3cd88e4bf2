//! The user's credentials, as they are kept in `~/.cfp/config.json`.
//!
//! The directory and the file hold a secret token, so they are kept to
//! [`DIR_MODE`] and [`FILE_MODE`].

use vstd::prelude::*;
use vstd::string::*;

use crate::client::Zone;
use crate::error::Error;
use crate::text;

verus! {

/// Environment variable that overrides the token from the config file.
pub const TOKEN_ENV_VAR: &'static str = "CLOUDFLARE_API_TOKEN";

/// Permissions of the config directory (`rwx------`).
pub const DIR_MODE: u32 = 0o700;

/// Permissions of the config file (`rw-------`).
pub const FILE_MODE: u32 = 0o600;

/// User configuration persisted to disk.
#[derive(Debug, PartialEq, Eq)]
pub struct Config {
    /// Cloudflare API token (secret).
    pub token: Option<String>,
    /// Cloudflare account ID (discovered from the zone).
    pub account_id: Option<String>,
    /// Cloudflare zone ID for the base domain.
    pub zone_id: Option<String>,
    /// Base domain, e.g. `example.com`.
    pub domain: Option<String>,
}

impl Clone for Config {
    fn clone(&self) -> (r: Self)
        ensures
            r == *self,
    {
        Config {
            token: self.token.clone(),
            account_id: self.account_id.clone(),
            zone_id: self.zone_id.clone(),
            domain: self.domain.clone(),
        }
    }
}

impl Default for Config {
    fn default() -> (r: Self)
        ensures
            r == Config::nothing(),
    {
        Config { token: None, account_id: None, zone_id: None, domain: None }
    }
}

/// An optional string as an optional sequence.
pub open spec fn view_of(s: Option<String>) -> Option<Seq<char>> {
    match s {
        Some(s) => Some(s@),
        None => None,
    }
}

/// An optional string slice as an optional sequence.
pub open spec fn str_view(s: Option<&str>) -> Option<Seq<char>> {
    match s {
        Some(s) => Some(s@),
        None => None,
    }
}

impl Config {
    /// A configuration without credentials.
    pub open spec fn nothing() -> Config {
        Config { token: None, account_id: None, zone_id: None, domain: None }
    }

    /// The token that counts: the one in the environment, without surrounding
    /// white space, unless it is blank; then the one in the file.
    pub open spec fn token_in_effect(self, env: Option<Seq<char>>) -> Option<Seq<char>> {
        match env {
            Some(value) => if text::trim(value).len() > 0 {
                Some(text::trim(value))
            } else {
                view_of(self.token)
            },
            None => view_of(self.token),
        }
    }

    /// All credentials are there.
    pub open spec fn ready(self, env: Option<Seq<char>>) -> bool {
        &&& self.token_in_effect(env) is Some
        &&& self.account_id is Some
        &&& self.zone_id is Some
        &&& self.domain is Some
    }

    /// The token that counts, given the value of [`TOKEN_ENV_VAR`].
    pub fn effective_token(&self, env: Option<&str>) -> (r: Option<String>)
        ensures
            view_of(r) == self.token_in_effect(str_view(env)),
    {
        if let Some(value) = env {
            let token = text::trimmed(value);
            if !token.as_str().is_empty() {
                return Some(token);
            }
        }
        self.token.clone()
    }

    /// Whether enough credentials exist to talk to the Cloudflare API.
    pub fn is_ready(&self, env: Option<&str>) -> (r: bool)
        ensures
            r == self.ready(str_view(env)),
    {
        self.effective_token(env).is_some() && self.account_id.is_some() && self.zone_id.is_some()
            && self.domain.is_some()
    }

    /// Takes over the account, the zone and the domain of a zone.
    pub fn apply_zone(&mut self, zone: &Zone)
        ensures
            *final(self) == (Config {
                token: old(self).token,
                account_id: Some(zone.account.id),
                zone_id: Some(zone.id),
                domain: Some(zone.name),
            }),
    {
        self.account_id = Some(zone.account.id.clone());
        self.zone_id = Some(zone.id.clone());
        self.domain = Some(zone.name.clone());
    }
}

/// A token in the environment that is not blank goes before the one in the
/// file, whatever that is.
pub proof fn env_token_takes_precedence(config: Config, env: Seq<char>)
    requires
        text::trim(env).len() > 0,
    ensures
        config.token_in_effect(Some(env)) == Some(text::trim(env)),
{
}

/// A blank token in the environment counts as none.
pub proof fn blank_env_token_is_none(config: Config, env: Seq<char>)
    requires
        text::trim(env).len() == 0,
    ensures
        config.token_in_effect(Some(env)) == config.token_in_effect(None),
{
}

/// Credentials that suffice for a tunnel.
#[derive(Debug, PartialEq, Eq)]
pub struct Credentials {
    /// Token in effect.
    pub token: String,
    /// Cloudflare account.
    pub account_id: String,
    /// Cloudflare zone.
    pub zone_id: String,
    /// Base domain.
    pub domain: String,
}

/// The error for a configuration that is not ready.
pub open spec fn not_ready(config: Config, env: Option<Seq<char>>, e: Error) -> bool {
    e matches Error::Other(message) && message@ == if config.token_in_effect(env) is None {
        "no Cloudflare API token configured"@
    } else {
        "account/zone not configured — run `cfp key <token>` (or `cfp domain <name>`) first"@
    }
}

/// The credentials of a configuration, or what is missing from it.
pub fn load_ready_config(config: &Config, env: Option<&str>) -> (r: Result<Credentials, Error>)
    ensures
        r is Ok <==> config.ready(str_view(env)),
        r matches Ok(c) ==> {
            &&& Some(c.token@) == config.token_in_effect(str_view(env))
            &&& Some(c.account_id) == config.account_id
            &&& Some(c.zone_id) == config.zone_id
            &&& Some(c.domain) == config.domain
        },
        r matches Err(e) ==> not_ready(*config, str_view(env), e),
{
    match config.effective_token(env) {
        None => Err(Error::Other("no Cloudflare API token configured".to_owned())),
        Some(token) => match (&config.account_id, &config.zone_id, &config.domain) {
            (Some(account_id), Some(zone_id), Some(domain)) => Ok(
                Credentials {
                    token,
                    account_id: account_id.clone(),
                    zone_id: zone_id.clone(),
                    domain: domain.clone(),
                },
            ),
            _ => Err(
                Error::Other(
                    "account/zone not configured — run `cfp key <token>` (or `cfp domain <name>`) first".to_owned(),
                ),
            ),
        },
    }
}

/// Where the configuration is kept.
#[derive(Debug, PartialEq, Eq)]
pub struct ConfigStore {
    /// The directory.
    pub dir: String,
    /// The file.
    pub file: String,
}

/// A character that separates the parts of a path.
pub open spec fn is_separator(c: char, windows: bool) -> bool {
    c == '/' || windows && c == '\\'
}

/// A drive of Windows and nothing else, such as `C:`.
pub open spec fn is_drive(dir: Seq<char>) -> bool {
    dir.len() == 2 && dir[1] == ':' && ('a' <= dir[0] <= 'z' || 'A' <= dir[0] <= 'Z')
}

/// A name inside a directory. The separator is that of the platform; there is
/// none after a directory that ends with one, nor after a bare drive.
pub open spec fn inside(dir: Seq<char>, name: Seq<char>, windows: bool) -> Seq<char> {
    if dir.len() == 0 || is_separator(dir.last(), windows) || windows && is_drive(dir) {
        dir + name
    } else if windows {
        dir + "\\"@ + name
    } else {
        dir + "/"@ + name
    }
}

/// A name inside a directory.
pub fn join(dir: &str, name: &str, windows: bool) -> (r: String)
    ensures
        r@ == inside(dir@, name@, windows),
{
    let v = text::chars_of(dir);
    let n: usize = v.len();
    let mut r = dir.to_owned();
    let ended = n == 0 || v[n - 1] == '/' || (windows && v[n - 1] == '\\');
    let drive = windows && n == 2 && v[1] == ':' && (('a' <= v[0] && v[0] <= 'z') || ('A' <= v[0]
        && v[0] <= 'Z'));
    if !ended && !drive {
        if windows {
            r.append("\\");
        } else {
            r.append("/");
        }
    }
    r.append(name);
    r
}

impl ConfigStore {
    /// Store in `.cfp` under a home directory; fails when there is none. Paths
    /// are those of Windows or of Unix.
    pub fn default(home: Option<&str>, windows: bool) -> (r: Result<Self, Error>)
        ensures
            match home {
                Some(home) => r matches Ok(store) && store.dir@ == inside(home@, ".cfp"@, windows)
                    && store.file@ == inside(
                    inside(home@, ".cfp"@, windows),
                    "config.json"@,
                    windows,
                ),
                None => r matches Err(Error::Other(message)) && message@
                    == "cannot determine home directory"@,
            },
    {
        match home {
            Some(home) => Ok(
                ConfigStore::with_dir(join(home, ".cfp", windows).as_str(), windows),
            ),
            None => Err(Error::Other("cannot determine home directory".to_owned())),
        }
    }

    /// Store rooted at an arbitrary directory.
    pub fn with_dir(dir: &str, windows: bool) -> (r: Self)
        ensures
            r.dir@ == dir@,
            r.file@ == inside(dir@, "config.json"@, windows),
    {
        ConfigStore { dir: dir.to_owned(), file: join(dir, "config.json", windows) }
    }

    /// Path of the config file.
    pub fn file_path(&self) -> (r: &str)
        ensures
            r@ == self.file@,
    {
        self.file.as_str()
    }

    /// The configuration that counts, given what the file holds. A file that is
    /// missing or corrupt counts as one without credentials.
    pub fn load(&self, content: Option<Config>) -> (r: Config)
        ensures
            r == loaded(content),
    {
        match content {
            Some(config) => config,
            None => Config::default(),
        }
    }

    /// How to save a configuration: the directory to create, the file to write,
    /// and that both are for their owner alone.
    pub fn save(&self, config: &Config) -> (r: Saving)
        ensures
            r.saves(*self, *config),
    {
        Saving {
            dir: self.dir.clone(),
            file: self.file.clone(),
            content: config.clone(),
            dir_mode: DIR_MODE,
            file_mode: FILE_MODE,
        }
    }
}

/// The configuration that counts, given what a file holds.
pub open spec fn loaded(content: Option<Config>) -> Config {
    match content {
        Some(config) => config,
        None => Config::nothing(),
    }
}

/// A configuration on its way to the disk.
#[derive(Debug, PartialEq, Eq)]
pub struct Saving {
    /// The directory, to be created where it is missing.
    pub dir: String,
    /// The file, to be replaced where there is one.
    pub file: String,
    /// What the file is to hold.
    pub content: Config,
    /// The permissions of the directory.
    pub dir_mode: u32,
    /// The permissions of the file.
    pub file_mode: u32,
}

/// The configurations on a disk, by path. A file that cannot be read as one is
/// not among them.
pub type Disk = Map<Seq<char>, Config>;

impl Saving {
    /// This puts a configuration where a store looks for it.
    pub open spec fn saves(self, store: ConfigStore, config: Config) -> bool {
        &&& self.dir == store.dir
        &&& self.file == store.file
        &&& self.content == config
        &&& self.dir_mode == DIR_MODE
        &&& self.file_mode == FILE_MODE
    }

    /// The disk once this has been carried out.
    pub open spec fn done(self, disk: Disk) -> Disk {
        disk.insert(self.file@, self.content)
    }

    /// What to say when the directory cannot be created.
    pub fn no_dir(&self) -> (r: String)
        ensures
            r@ == "cannot create config dir "@ + self.dir@,
    {
        let mut r = "cannot create config dir ".to_owned();
        r.append(self.dir.as_str());
        r
    }

    /// What to say when the file cannot be written.
    pub fn no_file(&self) -> (r: String)
        ensures
            r@ == "cannot write config file "@ + self.file@,
    {
        let mut r = "cannot write config file ".to_owned();
        r.append(self.file.as_str());
        r
    }
}

/// What a store finds on a disk.
pub open spec fn content_of(store: ConfigStore, disk: Disk) -> Option<Config> {
    if disk.dom().contains(store.file@) {
        Some(disk[store.file@])
    } else {
        None
    }
}

/// What has been saved is what is loaded, whatever was on the disk before, and
/// the files of other stores are untouched.
pub proof fn what_was_saved_is_loaded(
    store: ConfigStore,
    config: Config,
    saving: Saving,
    disk: Disk,
    other: ConfigStore,
)
    requires
        saving.saves(store, config),
    ensures
        loaded(content_of(store, saving.done(disk))) == config,
        other.file@ != store.file@ ==> loaded(content_of(other, saving.done(disk))) == loaded(
            content_of(other, disk),
        ),
{
}

/// Where there is nothing to read, the default is loaded.
pub proof fn a_missing_file_is_the_default(store: ConfigStore, disk: Disk)
    requires
        !disk.dom().contains(store.file@),
    ensures
        loaded(content_of(store, disk)) == Config::nothing(),
{
}

/// What is saved is for its owner alone: no one else may read the file or look
/// into the directory.
pub proof fn secrets_are_for_their_owner(store: ConfigStore, config: Config, saving: Saving)
    requires
        saving.saves(store, config),
    ensures
        saving.dir_mode % 0o100 == 0,
        saving.file_mode % 0o100 == 0,
{
}

/// The directory that holds the downloaded binary: `bin` under the config
/// directory, or under `.cfp` in the home directory.
pub fn install_dir(config_dir: Option<&str>, home: Option<&str>, windows: bool) -> (r: Result<
    String,
    Error,
>)
    ensures
        match (config_dir, home) {
            (Some(dir), _) => r matches Ok(path) && path@ == inside(dir@, "bin"@, windows),
            (None, Some(home)) => r matches Ok(path) && path@ == inside(
                inside(home@, ".cfp"@, windows),
                "bin"@,
                windows,
            ),
            (None, None) => r matches Err(Error::Other(message)) && message@
                == "cannot determine home directory"@,
        },
{
    match config_dir {
        Some(dir) => Ok(join(dir, "bin", windows)),
        None => match home {
            Some(home) => Ok(join(join(home, ".cfp", windows).as_str(), "bin", windows)),
            None => Err(Error::Other("cannot determine home directory".to_owned())),
        },
    }
}

/// Without a token in the environment the one in the file counts, as it stands;
/// a blank one in the environment changes nothing.
pub proof fn the_file_has_the_token(config: Config, env: Option<Seq<char>>)
    requires
        env matches Some(value) ==> forall|i: int|
            0 <= i < value.len() ==> text::is_white(#[trigger] value[i]),
    ensures
        config.token_in_effect(env) == (match config.token {
            Some(token) => Some(token@),
            None => None,
        }),
{
    if let Some(value) = env {
        let from = text::trimming_takes_the_ends_off(value);
        if text::trim(value).len() > 0 {
            assert(text::trim(value)[0] == value[from]);
        }
    }
}

/// A token in the environment counts as it stands once the white space around it
/// is gone, whatever the file says.
pub proof fn the_environment_goes_first(a: Config, b: Config, value: Seq<char>, i: int)
    requires
        0 <= i < value.len(),
        !text::is_white(value[i]),
    ensures
        a.token_in_effect(Some(value)) == Some(text::trim(value)),
        a.token_in_effect(Some(value)) == b.token_in_effect(Some(value)),
{
    let from = text::trimming_takes_the_ends_off(value);
    if text::trim(value).len() == 0 {
        assert(text::is_white(value[i]));
    }
}

/// A configuration is ready exactly if nothing is missing: a token, from one
/// place or the other, the account, the zone and the domain.
pub proof fn ready_means_nothing_is_missing(config: Config, env: Option<Seq<char>>)
    ensures
        config.ready(env) <==> config.token_in_effect(env) is Some && config.account_id is Some
            && config.zone_id is Some && config.domain is Some,
        !Config::nothing().ready(None),
        Config::nothing().token is None && Config::nothing().account_id is None
            && Config::nothing().zone_id is None && Config::nothing().domain is None,
{
}

/// A path inside a directory is the directory, at most one separator, and the
/// name; the separator is that of the platform, and it is left out only where
/// the directory already ends with one, is empty, or is a bare drive of Windows.
pub proof fn paths_hold_directory_and_name(dir: Seq<char>, name: Seq<char>, windows: bool)
    ensures
        ({
            let path = inside(dir, name, windows);
            let n = dir.len() as int;
            let ended = n == 0 || dir[n - 1] == '/' || (windows && dir[n - 1] == '\\');
            &&& path.take(n) == dir
            &&& ended ==> path == dir + name
            &&& !ended && !windows ==> path == dir + seq!['/'] + name
            &&& !ended && windows && n != 2 ==> path == dir + seq!['\\'] + name
            &&& !ended && windows && n == 2 && dir[1] != ':' ==> path == dir + seq!['\\'] + name
            &&& windows && n == 2 && dir[1] == ':' && 'A' <= dir[0] <= 'Z' ==> path == dir + name
        }),
{
    reveal_strlit("/");
    reveal_strlit("\\");
    let path = inside(dir, name, windows);
    assert(path.take(dir.len() as int) =~= dir);
    assert("/"@ =~= seq!['/']);
    assert("\\"@ =~= seq!['\\']);
}

/// What is saved is readable and writable by its owner, the directory can be
/// entered by its owner, and no one else has any right to either.
pub proof fn saved_files_have_their_modes(store: ConfigStore, config: Config, saving: Saving)
    requires
        saving.saves(store, config),
    ensures
        saving.dir_mode == 448,
        saving.file_mode == 384,
        saving.file == store.file,
        saving.dir == store.dir,
        saving.content.token == config.token,
        saving.content.account_id == config.account_id,
        saving.content.zone_id == config.zone_id,
        saving.content.domain == config.domain,
{
}

/// What is missing is told: first the token, then the rest.
pub proof fn what_is_missing_is_told(config: Config, env: Option<Seq<char>>, e: Error)
    requires
        not_ready(config, env, e),
    ensures
        e is Other,
        config.token_in_effect(env) is None ==> e.described()
            == "no Cloudflare API token configured"@,
        config.token_in_effect(env) is Some ==> e.described()
            == "account/zone not configured — run `cfp key <token>` (or `cfp domain <name>`) first"@,
{
}

/// The token that counts is the one in the environment unless that is blank; then
/// it is the one in the file. All else comes from the file.
pub proof fn tokens_come_from_the_environment_first(
    config: Config,
    value: &str,
    i: int,
    from_env: Option<String>,
    from_file: Option<String>,
)
    requires
        call_ensures(Config::effective_token, (&config, Some(value)), from_env),
        call_ensures(Config::effective_token, (&config, None::<&str>), from_file),
        0 <= i < value@.len(),
        !text::is_white(value@[i]),
    ensures
        from_env is Some && from_env->0@ == text::trim(value@),
        from_file is Some <==> config.token is Some,
        from_file is Some ==> from_file->0@ == config.token->0@,
{
    the_environment_goes_first(config, config, value@, i);
    assert(view_of(from_env) == Some(text::trim(value@)));
    assert(view_of(from_file) == view_of(config.token));
}

/// Credentials are complete or they are refused: each of them comes from its own
/// place.
pub proof fn credentials_are_complete(
    config: Config,
    env: Option<&str>,
    ready: bool,
    r: Result<Credentials, Error>,
)
    requires
        call_ensures(Config::is_ready, (&config, env), ready),
        call_ensures(load_ready_config, (&config, env), r),
    ensures
        r is Ok <==> ready,
        ready <==> config.token_in_effect(str_view(env)) is Some && config.account_id is Some
            && config.zone_id is Some && config.domain is Some,
        r matches Ok(c) ==> c.account_id == config.account_id->0 && c.zone_id == config.zone_id->0
            && c.domain == config.domain->0 && Some(c.token@) == config.token_in_effect(
            str_view(env),
        ),
        r matches Err(e) ==> e.described() == (if config.token_in_effect(str_view(env)) is None {
            "no Cloudflare API token configured"@
        } else {
            "account/zone not configured — run `cfp key <token>` (or `cfp domain <name>`) first"@
        }),
{
}

/// A zone brings its account, its id and its name; the token stays.
pub proof fn zones_are_applied_whole(config: &mut Config, zone: Zone)
    requires
        call_ensures(Config::apply_zone, (config, &zone), ()),
    ensures
        final(config).account_id == Some(zone.account.id),
        final(config).zone_id == Some(zone.id),
        final(config).domain == Some(zone.name),
        final(config).token == old(config).token,
{
}

/// What a store saves it loads again, and a file that cannot be read counts as
/// one without credentials. What is written goes to the file of the store, for
/// its owner alone.
pub proof fn stores_keep_what_they_are_given(
    store: ConfigStore,
    config: Config,
    saving: Saving,
    loaded: Config,
    fresh: Config,
)
    requires
        call_ensures(ConfigStore::save, (&store, &config), saving),
        call_ensures(ConfigStore::load, (&store, Some(saving.content)), loaded),
        call_ensures(ConfigStore::load, (&store, None::<Config>), fresh),
    ensures
        loaded == config,
        saving.file == store.file,
        saving.dir == store.dir,
        saving.dir_mode == 448,
        saving.file_mode == 384,
        fresh.token is None && fresh.account_id is None && fresh.zone_id is None && fresh.domain
            is None,
{
}

/// The configuration is `config.json` in its directory, which is `.cfp` in the
/// home directory unless another one is given; the binary is in `bin` beside it.
pub proof fn files_have_their_place(
    home: &str,
    dir: &str,
    by_default: Result<ConfigStore, Error>,
    nowhere: Result<ConfigStore, Error>,
    given: ConfigStore,
    bin: Result<String, Error>,
    own: Result<String, Error>,
)
    requires
        home@.len() > 0,
        home@.last() != '/',
        dir@.len() > 0,
        dir@.last() != '/',
        call_ensures(ConfigStore::default, (Some(home), false), by_default),
        call_ensures(ConfigStore::default, (None::<&str>, false), nowhere),
        call_ensures(ConfigStore::with_dir, (dir, false), given),
        call_ensures(install_dir, (None::<&str>, Some(home), false), bin),
        call_ensures(install_dir, (Some(dir), Some(home), false), own),
    ensures
        by_default is Ok,
        by_default->Ok_0.dir@ == home@ + "/"@ + ".cfp"@,
        by_default->Ok_0.file@ == home@ + "/"@ + ".cfp"@ + "/"@ + "config.json"@,
        nowhere is Err,
        given.dir@ == dir@,
        given.file@ == dir@ + "/"@ + "config.json"@,
        bin is Ok && bin->Ok_0@ == home@ + "/"@ + ".cfp"@ + "/"@ + "bin"@,
        own is Ok && own->Ok_0@ == dir@ + "/"@ + "bin"@,
{
    reveal_strlit(".cfp");
    let sub = home@ + "/"@ + ".cfp"@;
    assert(sub.last() == ".cfp"@.last());
}

} // verus!
