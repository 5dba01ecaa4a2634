use mirror_manager::config::{
    apply_env_overrides, apply_inheritance, resolve_config, validate_config,
    validate_config_version, ApiConfig, AppConfig, BtrfsPublishConfig, ConfigError,
    ConfigLoadOptions, DbConfig, DbJournalMode, DbSynchronous, ManagerConfig, MirrorConfig,
    PathConfig, Provider, ProviderConfig, PublishConfig, PublishDriver, ShutdownConfig,
    SymlinkPublishConfig, TimeConfig, WorkerConfig, CONFIG_VERSION,
};
use std::path::PathBuf;

fn invalid(r: Result<(), ConfigError>) -> (&'static str, String) {
    match r {
        Err(ConfigError::InvalidField { field, reason }) => (field, reason),
        other => panic!("unexpected {other:?}"),
    }
}

fn provider(source: &str, args: &[&str]) -> ProviderConfig {
    ProviderConfig { source: source.to_string(), args: args.iter().map(|a| a.to_string()).collect() }
}

fn mirror(id: &str, interval: i64, keep: Option<u32>, p: Provider, source: &str) -> MirrorConfig {
    MirrorConfig { id: id.to_string(), interval, keep_generations: keep, provider: p, provider_config: provider(source, &[]) }
}

fn app(mirrors: Vec<MirrorConfig>) -> AppConfig {
    AppConfig {
        version: CONFIG_VERSION,
        path: PathConfig {
            data_dir: PathBuf::from("/data"),
            pub_dir: PathBuf::from("/pub"),
            log_dir: PathBuf::from("/log"),
            tmp_dir: PathBuf::from("/tmp"),
            run_dir: PathBuf::from("/run"),
        },
        time: TimeConfig { timezone: chrono_tz::Tz::UTC },
        database: DbConfig {
            sqlite_path: PathBuf::from("/db.sqlite"),
            busy_timeout: 5000,
            journal_mode: DbJournalMode::default(),
            synchronous: DbSynchronous::default(),
        },
        api: ApiConfig { bind: "127.0.0.1:8080".to_string(), request_timeout: 30, access_log: true },
        manager: ManagerConfig { readonly_mode: false, config_reload_watch: false },
        worker: WorkerConfig { worker_num: 4 },
        shutdown: ShutdownConfig { grace_period: 10, force_kill_limit: 20, publish_non_stopable: true },
        publish: PublishConfig {
            driver: PublishDriver::Symlink,
            keep_generations: 3,
            symlink: Some(SymlinkPublishConfig { snapshot_dir: PathBuf::from("/snap") }),
            btrfs: None,
        },
        mirrors,
    }
}

#[test]
fn defaults_of_database_modes() {
    assert!(matches!(DbJournalMode::default(), DbJournalMode::Wal));
    assert!(matches!(DbSynchronous::default(), DbSynchronous::Normal));
}

#[test]
fn version_must_match() {
    assert!(validate_config_version(1).is_ok());
    match validate_config_version(2) {
        Err(ConfigError::ConfigVersionMismatch { expected, actual }) => {
            assert_eq!((expected, actual), (1, 2));
        }
        other => panic!("unexpected {other:?}"),
    }
}

#[test]
fn publish_driver_needs_its_section() {
    let mut p = PublishConfig { driver: PublishDriver::Symlink, keep_generations: 1, symlink: None, btrfs: None };
    assert_eq!(invalid(p.validate()), ("publish.symlink", "required when driver is 'symlink'".to_string()));
    p.driver = PublishDriver::Btrfs;
    assert_eq!(invalid(p.validate()), ("publish.btrfs", "required when driver is 'btrfs'".to_string()));
    p.btrfs = Some(BtrfsPublishConfig { subvolume_path: PathBuf::from("/vol") });
    assert!(p.validate().is_ok());
}

#[test]
fn durations_must_be_positive() {
    let db = DbConfig { sqlite_path: PathBuf::new(), busy_timeout: 0, journal_mode: DbJournalMode::Off, synchronous: DbSynchronous::Full };
    assert_eq!(invalid(db.validate()), ("database.busy-timeout-ms", "must be positive".to_string()));
    let api = ApiConfig { bind: String::new(), request_timeout: -1, access_log: false };
    assert_eq!(invalid(api.validate()), ("api.request-timeout-secs", "must be positive".to_string()));
}

#[test]
fn shutdown_limits() {
    let s = |grace, kill| ShutdownConfig { grace_period: grace, force_kill_limit: kill, publish_non_stopable: false };
    assert_eq!(invalid(s(5, 0).validate()).0, "shutdown.force-kill-after-secs");
    assert_eq!(invalid(s(0, 5).validate()).0, "shutdown.grace-period-secs");
    assert_eq!(
        invalid(s(10, 5).validate()),
        (
            "shutdown.grace-period-secs AND shutdown.force-kill-after-secs",
            "grace-period must longer than force-kill".to_string()
        )
    );
    assert!(s(5, 5).validate().is_ok());
}

#[test]
fn provider_sources() {
    let ok = |p: Provider, src: &str| provider(src, &[]).validate(&p).is_ok();
    assert!(ok(Provider::Git, "https://example.org/repo.git"));
    assert!(ok(Provider::Git, "  git@host:repo.git  "));
    assert!(ok(Provider::Git, "../relative"));
    assert!(ok(Provider::Git, "/abs/path"));
    assert!(!ok(Provider::Git, "ftp://example.org"));
    assert!(ok(Provider::Rsync, "rsync://mirror/debian"));
    assert!(ok(Provider::Rsync, "host::module"));
    assert!(ok(Provider::Rsync, "user@host:/srv"));
    assert!(!ok(Provider::Rsync, "host:module"));
    assert!(ok(Provider::Http, "http://x"));
    assert!(!ok(Provider::Http, "https:/x"));
    assert!(ok(Provider::Exec, "  ./sync.sh --all\n"));
    assert!(!ok(Provider::Exec, "a\nb"));
    assert!(!ok(Provider::Exec, "a\rb"));
    assert_eq!(invalid(provider("x", &[]).validate(&Provider::Git)).1, "invalid git source");
    assert_eq!(invalid(provider("x", &[]).validate(&Provider::Rsync)).1, "invalid rsync source");
    assert_eq!(
        invalid(provider("x", &[]).validate(&Provider::Http)).1,
        "http provider requires http:// or https:// source"
    );
    assert_eq!(
        invalid(provider("a\nb", &[]).validate(&Provider::Exec)).1,
        "exec source must be a single-line command"
    );
}

#[test]
fn blank_source_and_arguments() {
    assert_eq!(
        invalid(provider(" \t\u{3000} ", &[]).validate(&Provider::Exec)),
        ("mirrors.provider-config.source", "must not be empty".to_string())
    );
    assert_eq!(
        invalid(provider("https://x", &["-v", " \u{a0}"]).validate(&Provider::Http)),
        ("mirrors.provider-config.args", "must not contain empty argument".to_string())
    );
    // A blank argument is reported before an unsuitable source.
    assert_eq!(invalid(provider("ftp://x", &[""]).validate(&Provider::Git)).0, "mirrors.provider-config.args");
}

#[test]
fn mirror_checks_in_order() {
    assert_eq!(invalid(mirror("  ", 0, None, Provider::Git, "bad").validate()).0, "mirrors.id");
    assert_eq!(
        invalid(mirror("m", 0, None, Provider::Git, "bad").validate()),
        ("mirrors.interval-secs", "must be positive".to_string())
    );
    assert_eq!(invalid(mirror("m", 60, None, Provider::Git, "bad").validate()).1, "invalid git source");
    assert!(mirror("m", 60, None, Provider::Git, "/srv/git").validate().is_ok());
}

#[test]
fn validate_config_reports_first_problem() {
    let mut cfg = app(vec![
        mirror("good", 60, None, Provider::Http, "https://a"),
        mirror("bad", 60, None, Provider::Http, "ftp://a"),
        mirror("", 60, None, Provider::Http, "https://a"),
    ]);
    assert_eq!(invalid(validate_config(&cfg)).1, "http provider requires http:// or https:// source");
    cfg.api.request_timeout = 0;
    assert_eq!(invalid(validate_config(&cfg)).0, "api.request-timeout-secs");
    cfg.shutdown.grace_period = 0;
    assert_eq!(invalid(validate_config(&cfg)).0, "shutdown.grace-period-secs");
    cfg.publish.symlink = None;
    assert_eq!(invalid(validate_config(&cfg)).0, "publish.symlink");
    let fine = app(vec![mirror("good", 60, None, Provider::Http, "https://a")]);
    assert!(validate_config(&fine).is_ok());
}

#[test]
fn inheritance_fills_missing_generations() {
    let cfg = app(vec![
        mirror("a", 60, None, Provider::Http, "https://a"),
        mirror("b", 60, Some(7), Provider::Http, "https://b"),
    ]);
    let cfg = apply_env_overrides(cfg).unwrap();
    let out = apply_inheritance(cfg).unwrap();
    assert_eq!(out.mirrors[0].keep_generations, Some(3));
    assert_eq!(out.mirrors[1].keep_generations, Some(7));
    assert_eq!(out.mirrors[0].id, "a");
}

#[test]
fn resolve_checks_version_then_validates() {
    let mut cfg = app(vec![mirror("a", 60, None, Provider::Rsync, "rsync://a")]);
    cfg.version = 9;
    assert!(matches!(resolve_config(cfg), Err(ConfigError::ConfigVersionMismatch { expected: 1, actual: 9 })));
    let bad = app(vec![mirror("a", -1, None, Provider::Rsync, "rsync://a")]);
    assert_eq!(invalid(resolve_config(bad).map(|_| ())).0, "mirrors.interval-secs");
    let good = resolve_config(app(vec![mirror("a", 60, None, Provider::Rsync, "rsync://a")])).unwrap();
    assert_eq!(good.mirrors[0].keep_generations, Some(3));
}

#[test]
fn load_options_keep_path() {
    let o = ConfigLoadOptions::new(PathBuf::from("/etc/mirror.toml"));
    assert_eq!(o.config_path(), &PathBuf::from("/etc/mirror.toml"));
}
