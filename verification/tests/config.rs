use cloudpipe::client::{Zone, ZoneAccount};
use cloudpipe::config::{
    install_dir, load_ready_config, Config, ConfigStore, DIR_MODE, FILE_MODE, TOKEN_ENV_VAR,
};
use cloudpipe::error::Error;

/// Reads a file the way the program does: `None` when it is no configuration.
fn read(text: &str) -> Option<Config> {
    let value: serde_json::Value = serde_json::from_str(text).ok()?;
    let field = |name: &str| value.get(name).and_then(|v| v.as_str()).map(String::from);
    Some(Config {
        token: field("token"),
        account_id: field("account_id"),
        zone_id: field("zone_id"),
        domain: field("domain"),
    })
}

fn full() -> Config {
    Config {
        token: Some("secret-token".into()),
        account_id: Some("acc123".into()),
        zone_id: Some("zone456".into()),
        domain: Some("example.com".into()),
    }
}

#[test]
fn load_missing_file_returns_default() {
    let store = ConfigStore::with_dir("/tmp/cfp-test-missing", false);
    assert_eq!(store.load(None), Config::default());
}

#[test]
fn load_corrupt_file_returns_default() {
    let store = ConfigStore::with_dir("/tmp/cfp-test-corrupt", false);
    assert_eq!(store.load(read("{not json")), Config::default());
}

/// Writes a file the way the program does.
fn write(config: &Config) -> String {
    let value = |field: &Option<String>| match field {
        Some(text) => serde_json::Value::String(text.clone()),
        None => serde_json::Value::Null,
    };
    let mut file = serde_json::Map::new();
    file.insert("token".to_string(), value(&config.token));
    file.insert("account_id".to_string(), value(&config.account_id));
    file.insert("zone_id".to_string(), value(&config.zone_id));
    file.insert("domain".to_string(), value(&config.domain));
    serde_json::to_string_pretty(&serde_json::Value::Object(file)).unwrap()
}

#[test]
fn save_and_load_roundtrip() {
    let store = ConfigStore::with_dir("/tmp/cfp-test-roundtrip", false);
    let config = Config {
        token: Some("secret-token".into()),
        account_id: Some("acc123".into()),
        zone_id: Some("zone456".into()),
        domain: Some("example.com".into()),
    };
    let saving = store.save(&config);
    assert_eq!(saving.file, store.file_path());
    assert_eq!(store.load(read(&write(&saving.content))), config);
    let saving = store.save(&Config::default());
    assert_eq!(
        store.load(read(&write(&saving.content))),
        Config::default()
    );
}

#[test]
fn save_restricts_permissions() {
    let store = ConfigStore::with_dir("/tmp/cfp-test-perms", false);
    let saving = store.save(&Config::default());
    assert_eq!(saving.file_mode & 0o777, 0o600);
    assert_eq!(saving.dir_mode & 0o777, 0o700);
}

#[test]
fn what_cannot_be_saved_is_named() {
    let saving = ConfigStore::with_dir("/x", false).save(&full());
    assert_eq!(saving.dir, "/x");
    assert_eq!(saving.no_dir(), "cannot create config dir /x");
    assert_eq!(saving.no_file(), "cannot write config file /x/config.json");
}

#[test]
fn load_returns_what_the_file_holds() {
    let store = ConfigStore::with_dir("/tmp/cfp-test-full", false);
    assert_eq!(store.load(Some(full())), full());
}

#[test]
fn env_token_takes_precedence() {
    let store = ConfigStore::with_dir("/tmp/cfp-test-env-token", false);
    let mut config = Config {
        token: Some("file-token".into()),
        ..Default::default()
    };
    let loaded = store.load(Some(config.clone()));
    assert_eq!(loaded.effective_token(None).as_deref(), Some("file-token"));
    assert_eq!(
        loaded.effective_token(Some("env-token")).as_deref(),
        Some("env-token")
    );
    config.token = None;
    assert_eq!(config.effective_token(None), None);
}

#[test]
fn blank_env_tokens_count_as_none() {
    let config = full();
    assert_eq!(
        config.effective_token(Some(" \t ")).as_deref(),
        Some("secret-token")
    );
    assert_eq!(config.effective_token(Some(" e \n")).as_deref(), Some("e"));
}

#[test]
fn is_ready_checks_all_fields() {
    let ready = Config {
        token: Some("t".into()),
        account_id: Some("a".into()),
        zone_id: Some("z".into()),
        domain: Some("d.com".into()),
    };
    assert!(ready.is_ready(None));

    let incomplete = Config {
        token: Some("t".into()),
        ..Default::default()
    };
    assert!(!incomplete.is_ready(None));
}

#[test]
fn each_field_is_needed() {
    for missing in 0..4 {
        let mut config = full();
        match missing {
            0 => config.token = None,
            1 => config.account_id = None,
            2 => config.zone_id = None,
            _ => config.domain = None,
        }
        assert!(!config.is_ready(None));
        assert_eq!(config.is_ready(Some("env")), missing == 0);
        let expected = if missing == 0 {
            "no Cloudflare API token configured"
        } else {
            "account/zone not configured — run `cfp key <token>` (or `cfp domain <name>`) first"
        };
        assert_eq!(
            load_ready_config(&config, None).unwrap_err(),
            Error::Other(expected.to_string())
        );
    }
    let ready = load_ready_config(&full(), Some("env")).unwrap();
    assert_eq!(ready.token, "env");
    assert_eq!(ready.account_id, "acc123");
    assert_eq!(ready.zone_id, "zone456");
    assert_eq!(ready.domain, "example.com");
}

#[test]
fn zones_are_taken_over() {
    let mut config = full();
    config.apply_zone(&Zone {
        id: "z2".into(),
        name: "other.org".into(),
        account: ZoneAccount { id: "a2".into() },
    });
    assert_eq!(
        config,
        Config {
            token: Some("secret-token".into()),
            account_id: Some("a2".into()),
            zone_id: Some("z2".into()),
            domain: Some("other.org".into()),
        }
    );
}

#[test]
fn files_are_where_they_belong() {
    let store = ConfigStore::default(Some("/home/me"), false).unwrap();
    assert_eq!(store.dir, "/home/me/.cfp");
    assert_eq!(store.file_path(), "/home/me/.cfp/config.json");
    assert_eq!(ConfigStore::with_dir("/x/", false).file_path(), "/x/config.json");
    assert_eq!(
        ConfigStore::default(None, false).unwrap_err(),
        Error::Other("cannot determine home directory".to_string())
    );
    assert_eq!(install_dir(Some("/c"), None, false).unwrap(), "/c/bin");
    assert_eq!(install_dir(None, Some("/h"), false).unwrap(), "/h/.cfp/bin");
    assert!(install_dir(None, None, false).is_err());
    for dir in ["/a", "/a/", "", "/"] {
        let joined = std::path::Path::new(dir).join("config.json");
        assert_eq!(
            ConfigStore::with_dir(dir, false).file_path(),
            joined.to_string_lossy()
        );
    }
}

#[test]
fn windows_has_paths_of_its_own() {
    let store = ConfigStore::default(Some("C:\\Users\\me"), true).unwrap();
    assert_eq!(store.dir, "C:\\Users\\me\\.cfp");
    assert_eq!(store.file_path(), "C:\\Users\\me\\.cfp\\config.json");
    assert_eq!(
        store.save(&full()).no_file(),
        "cannot write config file C:\\Users\\me\\.cfp\\config.json"
    );
    assert_eq!(
        install_dir(None, Some("C:\\h"), true).unwrap(),
        "C:\\h\\.cfp\\bin"
    );
    for (dir, file) in [
        ("C:\\", "C:\\config.json"),
        ("C:/a/", "C:/a/config.json"),
        ("C:", "C:config.json"),
        ("ab", "ab\\config.json"),
        ("1:", "1:\\config.json"),
        ("", "config.json"),
    ] {
        assert_eq!(ConfigStore::with_dir(dir, true).file_path(), file);
    }
    assert_eq!(
        ConfigStore::with_dir("a\\", false).file_path(),
        "a\\/config.json"
    );
    assert_eq!(
        ConfigStore::with_dir("C:", false).file_path(),
        "C:/config.json"
    );
}

#[test]
fn secrets_are_for_their_owner() {
    assert_eq!(FILE_MODE, 0o600);
    assert_eq!(DIR_MODE, 0o700);
    assert_eq!(TOKEN_ENV_VAR, "CLOUDFLARE_API_TOKEN");
}
