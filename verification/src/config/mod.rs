//! Application configuration: its model, its validation, and how a parsed
//! configuration is resolved into the one the application runs with.
//!
//! Durations are held as the whole numbers the configuration file gives:
//! seconds, or milliseconds where the field's name says so.

use vstd::prelude::*;
use crate::text::{
    chars_of, has_infix, has_prefix, range_has_infix, range_has_prefix, trim, trim_bounds,
};

verus! {

/// `chrono_tz::Tz`, carried as an opaque value; nothing is claimed of it.
#[verifier::external_type_specification]
#[verifier::external_body]
pub struct ExTz(chrono_tz::Tz);

/// `toml::de::Error`, carried as an opaque value; nothing is claimed of it.
#[verifier::external_type_specification]
#[verifier::external_body]
pub struct ExTomlDeError(toml::de::Error);

/// `std::io::Error`, carried as an opaque value; nothing is claimed of it.
#[verifier::external_type_specification]
#[verifier::external_body]
pub struct ExIoError(std::io::Error);

/// The configuration format version this application reads.
pub const CONFIG_VERSION: u32 = 1;

/// The whole application configuration.
#[derive(Debug)]
pub struct AppConfig {
    pub version: u32,
    pub path: PathConfig,
    pub time: TimeConfig,
    pub database: DbConfig,
    pub api: ApiConfig,
    pub manager: ManagerConfig,
    pub worker: WorkerConfig,
    pub shutdown: ShutdownConfig,
    pub publish: PublishConfig,
    pub mirrors: Vec<MirrorConfig>,
}

/// Directories the application works in.
#[derive(Debug)]
pub struct PathConfig {
    pub data_dir: std::path::PathBuf,
    pub pub_dir: std::path::PathBuf,
    pub log_dir: std::path::PathBuf,
    pub tmp_dir: std::path::PathBuf,
    pub run_dir: std::path::PathBuf,
}

/// The time zone schedules are read in.
#[derive(Debug)]
pub struct TimeConfig {
    pub timezone: chrono_tz::Tz,
}

/// How often, and after which delays, a failed run is retried.
#[derive(Debug)]
pub struct RetryConfig {
    pub max_attempts: u32,
    /// The first delay, in seconds.
    pub first_backoff_dur: i64,
    /// The longest delay, in seconds.
    pub max_backoff_dur: i64,
}

/// How snapshots are published.
#[derive(Debug)]
pub struct PublishConfig {
    pub driver: PublishDriver,
    pub keep_generations: u32,
    pub symlink: Option<SymlinkPublishConfig>,
    pub btrfs: Option<BtrfsPublishConfig>,
}

/// `(field, reason)` of an invalid field.
pub type Problem = (Seq<char>, Seq<char>);

/// `r` reports exactly `problem`: success when there is none, otherwise the
/// invalid field with its field name and reason.
pub open spec fn reports(r: Result<(), ConfigError>, problem: Option<Problem>) -> bool {
    match problem {
        None => r is Ok,
        Some((f, why)) => r matches Err(ConfigError::InvalidField { field, reason }) && field@ == f
            && reason@ == why,
    }
}

impl PublishConfig {
    /// The first problem of the publishing settings: the driver's own
    /// section must be present.
    pub open spec fn problem(&self) -> Option<Problem> {
        match self.driver {
            PublishDriver::Symlink => if self.symlink is None {
                Some(("publish.symlink"@, "required when driver is 'symlink'"@))
            } else {
                None
            },
            PublishDriver::Btrfs => if self.btrfs is None {
                Some(("publish.btrfs"@, "required when driver is 'btrfs'"@))
            } else {
                None
            },
        }
    }

    /// Checks that the section of the chosen driver is present.
    pub fn validate(&self) -> (r: Result<(), ConfigError>)
        ensures
            reports(r, self.problem()),
    {
        match self.driver {
            PublishDriver::Symlink => {
                if self.symlink.is_none() {
                    return Err(
                        ConfigError::InvalidField {
                            field: "publish.symlink",
                            reason: "required when driver is 'symlink'".to_string(),
                        },
                    );
                }
            },
            PublishDriver::Btrfs => {
                if self.btrfs.is_none() {
                    return Err(
                        ConfigError::InvalidField {
                            field: "publish.btrfs",
                            reason: "required when driver is 'btrfs'".to_string(),
                        },
                    );
                }
            },
        }
        Ok(())
    }
}

/// Settings of the symlink publishing driver.
#[derive(Debug, Default)]
pub struct SymlinkPublishConfig {
    pub snapshot_dir: std::path::PathBuf,
}

/// Settings of the btrfs publishing driver.
#[derive(Debug, Default)]
pub struct BtrfsPublishConfig {
    pub subvolume_path: std::path::PathBuf,
}

/// The way snapshots are published.
#[derive(Debug)]
pub enum PublishDriver {
    Symlink,
    Btrfs,
}

/// Database settings.
#[derive(Debug)]
pub struct DbConfig {
    pub sqlite_path: std::path::PathBuf,
    /// How long to wait on a locked database, in milliseconds.
    pub busy_timeout: i64,
    pub journal_mode: DbJournalMode,
    pub synchronous: DbSynchronous,
}

impl DbConfig {
    /// The first problem of the database settings.
    pub open spec fn problem(&self) -> Option<Problem> {
        if self.busy_timeout <= 0 {
            Some(("database.busy-timeout-ms"@, "must be positive"@))
        } else {
            None
        }
    }

    /// Checks that the busy timeout is positive.
    pub fn validate(&self) -> (r: Result<(), ConfigError>)
        ensures
            reports(r, self.problem()),
    {
        if self.busy_timeout <= 0 {
            return Err(
                ConfigError::InvalidField {
                    field: "database.busy-timeout-ms",
                    reason: "must be positive".to_string(),
                },
            );
        }
        Ok(())
    }
}

/// SQLite journal modes.
#[derive(Debug)]
pub enum DbJournalMode {
    Delete,
    Truncate,
    Persist,
    Memory,
    Wal,
    Off,
}

impl Default for DbJournalMode {
    fn default() -> (r: Self)
        ensures
            r is Wal,
    {
        Self::Wal
    }
}

/// SQLite synchronous modes.
#[derive(Debug)]
pub enum DbSynchronous {
    Off,
    Normal,
    Full,
    Extra,
}

impl Default for DbSynchronous {
    fn default() -> (r: Self)
        ensures
            r is Normal,
    {
        Self::Normal
    }
}

/// Settings of the control API.
#[derive(Debug)]
pub struct ApiConfig {
    /// The socket address to listen on.
    pub bind: String,
    /// How long a request may take, in seconds.
    pub request_timeout: i64,
    pub access_log: bool,
}

impl ApiConfig {
    /// The first problem of the API settings.
    pub open spec fn problem(&self) -> Option<Problem> {
        if self.request_timeout <= 0 {
            Some(("api.request-timeout-secs"@, "must be positive"@))
        } else {
            None
        }
    }

    /// Checks that the request timeout is positive.
    pub fn validate(&self) -> (r: Result<(), ConfigError>)
        ensures
            reports(r, self.problem()),
    {
        if self.request_timeout <= 0 {
            return Err(
                ConfigError::InvalidField {
                    field: "api.request-timeout-secs",
                    reason: "must be positive".to_string(),
                },
            );
        }
        Ok(())
    }
}

/// Settings of the manager.
#[derive(Debug)]
pub struct ManagerConfig {
    pub readonly_mode: bool,
    pub config_reload_watch: bool,
}

/// Settings of the workers.
#[derive(Debug)]
pub struct WorkerConfig {
    pub worker_num: u64,
}

/// How the application shuts down.
#[derive(Debug)]
pub struct ShutdownConfig {
    /// How long running work is given to finish, in seconds.
    pub grace_period: i64,
    /// After how long work is killed, in seconds.
    pub force_kill_limit: i64,
    pub publish_non_stopable: bool,
}

impl ShutdownConfig {
    /// The first problem of the shutdown settings.
    pub open spec fn problem(&self) -> Option<Problem> {
        if self.force_kill_limit <= 0 {
            Some(("shutdown.force-kill-after-secs"@, "must be positive"@))
        } else if self.grace_period <= 0 {
            Some(("shutdown.grace-period-secs"@, "must be positive"@))
        } else if self.force_kill_limit < self.grace_period {
            Some(
                (
                    "shutdown.grace-period-secs AND shutdown.force-kill-after-secs"@,
                    "grace-period must longer than force-kill"@,
                ),
            )
        } else {
            None
        }
    }

    /// Checks that both limits are positive and that the kill limit is not
    /// shorter than the grace period.
    pub fn validate(&self) -> (r: Result<(), ConfigError>)
        ensures
            reports(r, self.problem()),
    {
        if self.force_kill_limit <= 0 {
            return Err(
                ConfigError::InvalidField {
                    field: "shutdown.force-kill-after-secs",
                    reason: "must be positive".to_string(),
                },
            );
        }
        if self.grace_period <= 0 {
            return Err(
                ConfigError::InvalidField {
                    field: "shutdown.grace-period-secs",
                    reason: "must be positive".to_string(),
                },
            );
        }
        if self.force_kill_limit < self.grace_period {
            return Err(
                ConfigError::InvalidField {
                    field: "shutdown.grace-period-secs AND shutdown.force-kill-after-secs",
                    reason: "grace-period must longer than force-kill".to_string(),
                },
            );
        }
        Ok(())
    }
}

/// One mirror to keep synchronised.
#[derive(Debug)]
pub struct MirrorConfig {
    pub id: String,
    /// How often to synchronise, in seconds.
    pub interval: i64,
    pub keep_generations: Option<u32>,
    pub provider: Provider,
    pub provider_config: ProviderConfig,
}

impl MirrorConfig {
    /// The first problem of the mirror's settings.
    pub open spec fn problem(&self) -> Option<Problem> {
        if trim(self.id@).len() == 0 {
            Some(("mirrors.id"@, "must not be empty"@))
        } else if self.interval <= 0 {
            Some(("mirrors.interval-secs"@, "must be positive"@))
        } else {
            self.provider_config.problem(self.provider)
        }
    }

    /// Checks the mirror's identifier, its interval and its provider
    /// settings, in this order.
    pub fn validate(&self) -> (r: Result<(), ConfigError>)
        ensures
            reports(r, self.problem()),
    {
        let id = chars_of(self.id.as_str());
        let (lo, hi) = trim_bounds(&id);
        if lo == hi {
            return Err(
                ConfigError::InvalidField {
                    field: "mirrors.id",
                    reason: "must not be empty".to_string(),
                },
            );
        }
        if self.interval <= 0 {
            return Err(
                ConfigError::InvalidField {
                    field: "mirrors.interval-secs",
                    reason: "must be positive".to_string(),
                },
            );
        }
        self.provider_config.validate(&self.provider)
    }
}

/// The kind of source a mirror synchronises from.
#[derive(Debug, Clone, Copy, PartialEq, Eq, Structural)]
pub enum Provider {
    Git,
    Rsync,
    Http,
    Exec,
}

/// Where and how a mirror's provider fetches.
#[derive(Debug)]
pub struct ProviderConfig {
    pub source: String,
    pub args: Vec<String>,
}

/// The trimmed source `src` suits `provider`.
pub open spec fn source_suits(provider: Provider, src: Seq<char>) -> bool {
    match provider {
        Provider::Git => {
            ||| has_prefix(src, "http://"@)
            ||| has_prefix(src, "https://"@)
            ||| has_prefix(src, "ssh://"@)
            ||| has_prefix(src, "git@"@)
            ||| has_prefix(src, "file://"@)
            ||| has_prefix(src, "/"@)
            ||| has_prefix(src, "./"@)
            ||| has_prefix(src, "../"@)
        },
        Provider::Rsync => has_prefix(src, "rsync://"@) || has_infix(src, ":/"@) || has_infix(
            src,
            "::"@,
        ),
        Provider::Http => has_prefix(src, "http://"@) || has_prefix(src, "https://"@),
        Provider::Exec => !has_infix(src, "\n"@) && !has_infix(src, "\r"@),
    }
}

/// Why a source does not suit `provider`.
pub open spec fn unsuitable_source_reason(provider: Provider) -> Seq<char> {
    match provider {
        Provider::Git => "invalid git source"@,
        Provider::Rsync => "invalid rsync source"@,
        Provider::Http => "http provider requires http:// or https:// source"@,
        Provider::Exec => "exec source must be a single-line command"@,
    }
}

impl ProviderConfig {
    /// The first problem of the provider settings for `provider`.
    pub open spec fn problem(&self, provider: Provider) -> Option<Problem> {
        if trim(self.source@).len() == 0 {
            Some(("mirrors.provider-config.source"@, "must not be empty"@))
        } else if exists|i: int| 0 <= i < self.args@.len() && #[trigger] trim(self.args@[i]@).len() == 0 {
            Some(("mirrors.provider-config.args"@, "must not contain empty argument"@))
        } else if !source_suits(provider, trim(self.source@)) {
            Some(("mirrors.provider-config.source"@, unsuitable_source_reason(provider)))
        } else {
            None
        }
    }

    /// Checks that the source and every argument are not blank, and that
    /// the trimmed source has a form that suits `provider`.
    pub fn validate(&self, provider: &Provider) -> (r: Result<(), ConfigError>)
        ensures
            reports(r, self.problem(*provider)),
    {
        let src = chars_of(self.source.as_str());
        let (lo, hi) = trim_bounds(&src);
        if lo == hi {
            return Err(
                ConfigError::InvalidField {
                    field: "mirrors.provider-config.source",
                    reason: "must not be empty".to_string(),
                },
            );
        }
        let mut i: usize = 0;
        while i < self.args.len()
            invariant
                i <= self.args.len(),
                trim(self.source@).len() != 0,
                forall|j: int| 0 <= j < i ==> #[trigger] trim(self.args@[j]@).len() != 0,
            decreases self.args.len() - i,
        {
            let arg = chars_of(self.args[i].as_str());
            let (alo, ahi) = trim_bounds(&arg);
            if alo == ahi {
                assert(trim(self.args@[i as int]@).len() == 0);
                return Err(
                    ConfigError::InvalidField {
                        field: "mirrors.provider-config.args",
                        reason: "must not contain empty argument".to_string(),
                    },
                );
            }
            i = i + 1;
        }
        let ghost t = trim(self.source@);
        match provider {
            Provider::Git => {
                let valid = range_has_prefix(&src, lo, hi, &chars_of("http://"))
                    || range_has_prefix(&src, lo, hi, &chars_of("https://"))
                    || range_has_prefix(&src, lo, hi, &chars_of("ssh://"))
                    || range_has_prefix(&src, lo, hi, &chars_of("git@"))
                    || range_has_prefix(&src, lo, hi, &chars_of("file://"))
                    || range_has_prefix(&src, lo, hi, &chars_of("/"))
                    || range_has_prefix(&src, lo, hi, &chars_of("./"))
                    || range_has_prefix(&src, lo, hi, &chars_of("../"));
                if !valid {
                    return Err(
                        ConfigError::InvalidField {
                            field: "mirrors.provider-config.source",
                            reason: "invalid git source".to_string(),
                        },
                    );
                }
            },
            Provider::Rsync => {
                let valid = range_has_prefix(&src, lo, hi, &chars_of("rsync://"))
                    || range_has_infix(&src, lo, hi, &chars_of(":/"))
                    || range_has_infix(&src, lo, hi, &chars_of("::"));
                if !valid {
                    return Err(
                        ConfigError::InvalidField {
                            field: "mirrors.provider-config.source",
                            reason: "invalid rsync source".to_string(),
                        },
                    );
                }
            },
            Provider::Http => {
                if !(range_has_prefix(&src, lo, hi, &chars_of("http://")) || range_has_prefix(
                    &src,
                    lo,
                    hi,
                    &chars_of("https://"),
                )) {
                    return Err(
                        ConfigError::InvalidField {
                            field: "mirrors.provider-config.source",
                            reason: "http provider requires http:// or https:// source".to_string(),
                        },
                    );
                }
            },
            Provider::Exec => {
                if range_has_infix(&src, lo, hi, &chars_of("\n")) || range_has_infix(
                    &src,
                    lo,
                    hi,
                    &chars_of("\r"),
                ) {
                    return Err(
                        ConfigError::InvalidField {
                            field: "mirrors.provider-config.source",
                            reason: "exec source must be a single-line command".to_string(),
                        },
                    );
                }
            },
        }
        Ok(())
    }
}

/// The first problem among `mirrors`, in their order.
pub open spec fn mirrors_problem(mirrors: Seq<MirrorConfig>) -> Option<Problem>
    decreases mirrors.len(),
{
    if mirrors.len() == 0 {
        None
    } else if mirrors[0].problem() is Some {
        mirrors[0].problem()
    } else {
        mirrors_problem(mirrors.drop_first())
    }
}

/// The first problem of a configuration: publishing, shutdown, API and
/// database settings are checked in this order, then each mirror in turn.
pub open spec fn config_problem(cfg: AppConfig) -> Option<Problem> {
    if cfg.publish.problem() is Some {
        cfg.publish.problem()
    } else if cfg.shutdown.problem() is Some {
        cfg.shutdown.problem()
    } else if cfg.api.problem() is Some {
        cfg.api.problem()
    } else if cfg.database.problem() is Some {
        cfg.database.problem()
    } else {
        mirrors_problem(cfg.mirrors@)
    }
}

/// `m` with its kept generations set: its own count if it has one, else
/// `default`.
pub open spec fn inherited(m: MirrorConfig, default: u32) -> MirrorConfig {
    MirrorConfig {
        id: m.id,
        interval: m.interval,
        keep_generations: Some(
            match m.keep_generations {
                Some(g) => g,
                None => default,
            },
        ),
        provider: m.provider,
        provider_config: m.provider_config,
    }
}

/// `c` is `raw` with every mirror given its kept generations, inherited
/// from the publishing settings where the mirror has none.
pub open spec fn is_inheritance_of(c: AppConfig, raw: AppConfig) -> bool {
    &&& c.version == raw.version
    &&& c.path == raw.path
    &&& c.time == raw.time
    &&& c.database == raw.database
    &&& c.api == raw.api
    &&& c.manager == raw.manager
    &&& c.worker == raw.worker
    &&& c.shutdown == raw.shutdown
    &&& c.publish == raw.publish
    &&& c.mirrors@ == raw.mirrors@.map_values(|m: MirrorConfig| inherited(m, raw.publish.keep_generations))
}

/// Fails with `ConfigVersionMismatch` unless `version` is the version this
/// application reads.
pub fn validate_config_version(version: u32) -> (r: Result<(), ConfigError>)
    ensures
        version == CONFIG_VERSION ==> r is Ok,
        version != CONFIG_VERSION ==> (r matches Err(
            ConfigError::ConfigVersionMismatch { expected, actual },
        ) && expected == CONFIG_VERSION && actual == version),
{
    if version != CONFIG_VERSION {
        return Err(ConfigError::ConfigVersionMismatch { expected: CONFIG_VERSION, actual: version });
    }
    Ok(())
}

/// Applies overrides from the environment; none are defined, so the
/// configuration is passed through unchanged.
pub fn apply_env_overrides(cfg: AppConfig) -> (r: Result<AppConfig, ConfigError>)
    ensures
        r == Ok::<AppConfig, ConfigError>(cfg),
{
    Ok(cfg)
}

/// Gives every mirror without its own count of kept generations the count
/// of the publishing settings.
pub fn apply_inheritance(cfg: AppConfig) -> (r: Result<AppConfig, ConfigError>)
    ensures
        r matches Ok(c) && is_inheritance_of(c, cfg),
{
    let AppConfig {
        version,
        path,
        time,
        database,
        api,
        manager,
        worker,
        shutdown,
        publish,
        mirrors,
    } = cfg;
    let default = publish.keep_generations;
    let ghost all = mirrors@;
    let mut rest = mirrors;
    let mut done: Vec<MirrorConfig> = Vec::new();
    let ghost mut i: int = 0;
    assert(all.subrange(0, all.len() as int) =~= all);
    while rest.len() > 0
        invariant
            0 <= i <= all.len(),
            rest@ == all.subrange(i, all.len() as int),
            done@ == all.take(i).map_values(|m: MirrorConfig| inherited(m, default)),
        decreases rest.len(),
    {
        let m = rest.remove(0);
        let MirrorConfig { id, interval, keep_generations, provider, provider_config } = m;
        let keep = match keep_generations {
            Some(g) => g,
            None => default,
        };
        done.push(
            MirrorConfig {
                id,
                interval,
                keep_generations: Some(keep),
                provider,
                provider_config,
            },
        );
        proof {
            assert(rest@ =~= all.subrange(i + 1, all.len() as int));
            assert(done@ =~= all.take(i + 1).map_values(|m: MirrorConfig| inherited(m, default)));
            i = i + 1;
        }
    }
    assert(all.take(all.len() as int) =~= all);
    Ok(
        AppConfig {
            version,
            path,
            time,
            database,
            api,
            manager,
            worker,
            shutdown,
            publish,
            mirrors: done,
        },
    )
}

/// Checks every section of `cfg` and reports the first problem found.
pub fn validate_config(cfg: &AppConfig) -> (r: Result<(), ConfigError>)
    ensures
        reports(r, config_problem(*cfg)),
{
    match cfg.publish.validate() {
        Ok(()) => {},
        Err(e) => return Err(e),
    }
    match cfg.shutdown.validate() {
        Ok(()) => {},
        Err(e) => return Err(e),
    }
    match cfg.api.validate() {
        Ok(()) => {},
        Err(e) => return Err(e),
    }
    match cfg.database.validate() {
        Ok(()) => {},
        Err(e) => return Err(e),
    }
    let mut i: usize = 0;
    let ghost ms = cfg.mirrors@;
    assert(ms.skip(0) =~= ms);
    while i < cfg.mirrors.len()
        invariant
            i <= ms.len(),
            ms == cfg.mirrors@,
            config_problem(*cfg) == mirrors_problem(ms),
            mirrors_problem(ms) == mirrors_problem(ms.skip(i as int)),
        decreases cfg.mirrors.len() - i,
    {
        assert(ms.skip(i as int)[0] == ms[i as int]);
        match cfg.mirrors[i].validate() {
            Ok(()) => {},
            Err(e) => return Err(e),
        }
        assert(ms.skip(i as int).drop_first() =~= ms.skip(i + 1));
        i = i + 1;
    }
    assert(ms.skip(i as int).len() == 0);
    Ok(())
}

/// Inheriting kept generations does not change which problem the mirrors
/// have: validating after inheritance finds what validating before would.
pub proof fn lemma_inherited_problem(ms: Seq<MirrorConfig>, default: u32)
    ensures
        mirrors_problem(ms.map_values(|m: MirrorConfig| inherited(m, default))) == mirrors_problem(ms),
    decreases ms.len(),
{
    if ms.len() > 0 {
        let f = |m: MirrorConfig| inherited(m, default);
        assert(ms.map_values(f).drop_first() =~= ms.drop_first().map_values(f));
        lemma_inherited_problem(ms.drop_first(), default);
    }
}

/// After inheritance every mirror has a count of kept generations: its own
/// where it had one, otherwise that of the publishing settings.
pub proof fn lemma_inheritance_sets_generations(c: AppConfig, raw: AppConfig, i: int)
    requires
        is_inheritance_of(c, raw),
        0 <= i < raw.mirrors@.len(),
    ensures
        c.mirrors@[i].keep_generations == Some(
            match raw.mirrors@[i].keep_generations {
                Some(g) => g,
                None => raw.publish.keep_generations,
            },
        ),
        c.mirrors@[i].id == raw.mirrors@[i].id,
{
}

/// Resolves a parsed configuration into the one the application runs with:
/// checks its version, applies environment overrides, gives mirrors their
/// inherited settings, then validates the result.
pub fn resolve_config(raw: AppConfig) -> (r: Result<AppConfig, ConfigError>)
    ensures
        raw.version != CONFIG_VERSION ==> (r matches Err(
            ConfigError::ConfigVersionMismatch { expected, actual },
        ) && expected == CONFIG_VERSION && actual == raw.version),
        raw.version == CONFIG_VERSION ==> match config_problem(raw) {
            Some((f, why)) => r matches Err(ConfigError::InvalidField { field, reason })
                && field@ == f && reason@ == why,
            None => r matches Ok(c) && is_inheritance_of(c, raw),
        },
{
    match validate_config_version(raw.version) {
        Ok(()) => {},
        Err(e) => return Err(e),
    }
    let ghost raw_view = raw;
    let env_applied = match apply_env_overrides(raw) {
        Ok(c) => c,
        Err(e) => return Err(e),
    };
    let resolved = match apply_inheritance(env_applied) {
        Ok(c) => c,
        Err(e) => return Err(e),
    };
    proof {
        lemma_inherited_problem(raw_view.mirrors@, raw_view.publish.keep_generations);
    }
    match validate_config(&resolved) {
        Ok(()) => {},
        Err(e) => return Err(e),
    }
    Ok(resolved)
}

/// Where to load the configuration from.
pub struct ConfigLoadOptions {
    config_path: std::path::PathBuf,
}

impl ConfigLoadOptions {
    /// The configuration file the options point to.
    pub closed spec fn path(&self) -> std::path::PathBuf {
        self.config_path
    }

    /// Options that load the configuration file at `config_path`.
    pub fn new(config_path: std::path::PathBuf) -> (o: Self)
        ensures
            o.path() == config_path,
    {
        Self { config_path }
    }

    /// The configuration file to load.
    pub fn config_path(&self) -> (p: &std::path::PathBuf)
        ensures
            *p == self.path(),
    {
        &self.config_path
    }
}

/// Why a configuration could not be loaded.
#[derive(Debug)]
pub enum ConfigError {
    /// The configuration source cannot be read from.
    SourceUnavailable(String),
    /// The configuration is not valid TOML for this model.
    ParseToml(toml::de::Error),
    /// A field holds a value the application does not accept.
    InvalidField { field: &'static str, reason: String },
    /// The configuration is written for another format version.
    ConfigVersionMismatch { expected: u32, actual: u32 },
    /// Reading the configuration failed.
    Io(std::io::Error),
}

} // verus!

verus! {

/// A provider configuration whose source and arguments are not blank.
pub open spec fn is_filled(pc: ProviderConfig) -> bool {
    &&& trim(pc.source@).len() != 0
    &&& forall|i: int| 0 <= i < pc.args@.len() ==> #[trigger] trim(pc.args@[i]@).len() != 0
}

/// A blank source is refused for every provider.
pub proof fn lemma_blank_source_refused(pc: ProviderConfig, provider: Provider)
    requires
        trim(pc.source@).len() == 0,
    ensures
        pc.problem(provider) == Some(("mirrors.provider-config.source"@, "must not be empty"@)),
{
}

/// A blank argument is refused for every provider, once the source is not
/// blank.
pub proof fn lemma_blank_argument_refused(pc: ProviderConfig, provider: Provider, i: int)
    requires
        trim(pc.source@).len() != 0,
        0 <= i < pc.args@.len(),
        trim(pc.args@[i]@).len() == 0,
    ensures
        pc.problem(provider) == Some(("mirrors.provider-config.args"@, "must not contain empty argument"@)),
{
}

/// A git source is accepted exactly when, trimmed, it begins with one of
/// `http://`, `https://`, `ssh://`, `git@`, `file://`, `/`, `./`, `../`;
/// otherwise it is refused as an invalid git source.
pub proof fn lemma_git_sources(pc: ProviderConfig)
    requires
        is_filled(pc),
    ensures
        ({
            let t = trim(pc.source@);
            let accepted = has_prefix(t, "http://"@) || has_prefix(t, "https://"@) || has_prefix(t, "ssh://"@)
                || has_prefix(t, "git@"@) || has_prefix(t, "file://"@) || has_prefix(t, "/"@)
                || has_prefix(t, "./"@) || has_prefix(t, "../"@);
            &&& accepted ==> pc.problem(Provider::Git) is None
            &&& !accepted ==> pc.problem(Provider::Git) == Some(("mirrors.provider-config.source"@, "invalid git source"@))
        }),
{
}

/// An rsync source is accepted exactly when, trimmed, it begins with
/// `rsync://` or contains `:/` or `::`; otherwise it is refused as an invalid
/// rsync source.
pub proof fn lemma_rsync_sources(pc: ProviderConfig)
    requires
        is_filled(pc),
    ensures
        ({
            let t = trim(pc.source@);
            let accepted = has_prefix(t, "rsync://"@) || has_infix(t, ":/"@) || has_infix(t, "::"@);
            &&& accepted ==> pc.problem(Provider::Rsync) is None
            &&& !accepted ==> pc.problem(Provider::Rsync) == Some(("mirrors.provider-config.source"@, "invalid rsync source"@))
        }),
{
}

/// An http source is accepted exactly when, trimmed, it begins with
/// `http://` or `https://`.
pub proof fn lemma_http_sources(pc: ProviderConfig)
    requires
        is_filled(pc),
    ensures
        ({
            let t = trim(pc.source@);
            let accepted = has_prefix(t, "http://"@) || has_prefix(t, "https://"@);
            &&& accepted ==> pc.problem(Provider::Http) is None
            &&& !accepted ==> pc.problem(Provider::Http) == Some(
                ("mirrors.provider-config.source"@, "http provider requires http:// or https:// source"@),
            )
        }),
{
}

/// An exec source is accepted exactly when, trimmed, it holds no line feed
/// and no carriage return.
pub proof fn lemma_exec_sources(pc: ProviderConfig)
    requires
        is_filled(pc),
    ensures
        ({
            let t = trim(pc.source@);
            let accepted = !has_infix(t, "\n"@) && !has_infix(t, "\r"@);
            &&& accepted ==> pc.problem(Provider::Exec) is None
            &&& !accepted ==> pc.problem(Provider::Exec) == Some(
                ("mirrors.provider-config.source"@, "exec source must be a single-line command"@),
            )
        }),
{
}

/// A mirror is refused for a blank identifier, then for a non-positive
/// interval; otherwise its provider settings decide.
pub proof fn lemma_mirror_checks(m: MirrorConfig)
    ensures
        trim(m.id@).len() == 0 ==> m.problem() == Some(("mirrors.id"@, "must not be empty"@)),
        trim(m.id@).len() != 0 && m.interval <= 0 ==> m.problem() == Some(("mirrors.interval-secs"@, "must be positive"@)),
        trim(m.id@).len() != 0 && m.interval > 0 ==> m.problem() == m.provider_config.problem(m.provider),
{
}

/// The sections' own checks: a non-positive database busy timeout or API
/// request timeout is refused; the shutdown limits must be positive with the
/// kill limit not below the grace period; the publishing driver's section
/// must be present.
pub proof fn lemma_section_checks(cfg: AppConfig)
    ensures
        cfg.database.busy_timeout <= 0 <==> cfg.database.problem() == Some(("database.busy-timeout-ms"@, "must be positive"@)),
        cfg.database.busy_timeout > 0 <==> cfg.database.problem() is None,
        cfg.api.request_timeout <= 0 <==> cfg.api.problem() == Some(("api.request-timeout-secs"@, "must be positive"@)),
        cfg.api.request_timeout > 0 <==> cfg.api.problem() is None,
        cfg.shutdown.problem() is None <==> (cfg.shutdown.force_kill_limit > 0 && cfg.shutdown.grace_period > 0
            && cfg.shutdown.grace_period <= cfg.shutdown.force_kill_limit),
        cfg.shutdown.force_kill_limit <= 0 ==> cfg.shutdown.problem() == Some(("shutdown.force-kill-after-secs"@, "must be positive"@)),
        cfg.shutdown.force_kill_limit > 0 && cfg.shutdown.grace_period <= 0 ==> cfg.shutdown.problem() == Some(("shutdown.grace-period-secs"@, "must be positive"@)),
        cfg.publish.problem() is None <==> match cfg.publish.driver {
            PublishDriver::Symlink => cfg.publish.symlink is Some,
            PublishDriver::Btrfs => cfg.publish.btrfs is Some,
        },
{
}

/// The mirrors' problem is that of the first mirror that has one; there is
/// none when no mirror has one.
pub proof fn lemma_mirrors_problem_first(ms: Seq<MirrorConfig>)
    ensures
        (forall|j: int| 0 <= j < ms.len() ==> (#[trigger] ms[j]).problem() is None) ==> mirrors_problem(ms) is None,
        forall|i: int| 0 <= i < ms.len() && (#[trigger] ms[i]).problem() is Some
            && (forall|j: int| 0 <= j < i ==> (#[trigger] ms[j]).problem() is None) ==> mirrors_problem(ms) == ms[i].problem(),
    decreases ms.len(),
{
    if ms.len() > 0 {
        let rest = ms.drop_first();
        lemma_mirrors_problem_first(rest);
        assert forall|i: int| 0 <= i < ms.len() && (#[trigger] ms[i]).problem() is Some
            && (forall|j: int| 0 <= j < i ==> (#[trigger] ms[j]).problem() is None) implies mirrors_problem(ms) == ms[i].problem() by {
            if i > 0 {
                assert(ms[0].problem() is None);
                assert(rest[i - 1] == ms[i]);
                assert forall|j: int| 0 <= j < i - 1 implies (#[trigger] rest[j]).problem() is None by {
                    assert(rest[j] == ms[j + 1]);
                }
            }
        }
        if forall|j: int| 0 <= j < ms.len() ==> (#[trigger] ms[j]).problem() is None {
            assert(ms[0].problem() is None);
            assert forall|j: int| 0 <= j < rest.len() implies (#[trigger] rest[j]).problem() is None by {
                assert(rest[j] == ms[j + 1]);
            }
        }
    }
}

/// A configuration is refused for the first section that fails its own
/// check, in the order publishing, shutdown, API, database, then the mirrors
/// in turn; it passes only when every section and every mirror passes.
pub proof fn lemma_config_problem_order(cfg: AppConfig)
    ensures
        cfg.publish.problem() is Some ==> config_problem(cfg) == cfg.publish.problem(),
        cfg.publish.problem() is None && cfg.shutdown.problem() is Some ==> config_problem(cfg) == cfg.shutdown.problem(),
        cfg.publish.problem() is None && cfg.shutdown.problem() is None && cfg.api.problem() is Some
            ==> config_problem(cfg) == cfg.api.problem(),
        cfg.publish.problem() is None && cfg.shutdown.problem() is None && cfg.api.problem() is None
            && cfg.database.problem() is Some ==> config_problem(cfg) == cfg.database.problem(),
        config_problem(cfg) is None <==> {
            &&& cfg.publish.problem() is None
            &&& cfg.shutdown.problem() is None
            &&& cfg.api.problem() is None
            &&& cfg.database.problem() is None
            &&& forall|j: int| 0 <= j < cfg.mirrors@.len() ==> (#[trigger] cfg.mirrors@[j]).problem() is None
        },
{
    let ms = cfg.mirrors@;
    lemma_mirrors_problem_first(ms);
    if !(forall|j: int| 0 <= j < ms.len() ==> (#[trigger] ms[j]).problem() is None) {
        let i = lemma_first_failing_mirror(ms);
        assert(mirrors_problem(ms) == ms[i].problem());
    }
}

/// The first mirror that fails its check, when one does.
proof fn lemma_first_failing_mirror(ms: Seq<MirrorConfig>) -> (i: int)
    requires
        exists|j: int| 0 <= j < ms.len() && (#[trigger] ms[j]).problem() is Some,
    ensures
        0 <= i < ms.len(),
        ms[i].problem() is Some,
        forall|j: int| 0 <= j < i ==> (#[trigger] ms[j]).problem() is None,
    decreases ms.len(),
{
    if ms[0].problem() is Some {
        0
    } else {
        let rest = ms.drop_first();
        let k = choose|j: int| 0 <= j < ms.len() && (#[trigger] ms[j]).problem() is Some;
        assert(k > 0);
        assert(rest[k - 1] == ms[k]);
        let i = lemma_first_failing_mirror(rest);
        assert(rest[i] == ms[i + 1]);
        assert forall|j: int| 0 <= j < i + 1 implies (#[trigger] ms[j]).problem() is None by {
            if j > 0 {
                assert(rest[j - 1] == ms[j]);
            }
        }
        i + 1
    }
}

} // verus!
