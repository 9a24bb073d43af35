//! Loading the configuration: the file form of the settings, overrides from
//! environment variables, the checks a configuration must pass, and which
//! environment the application runs in.
use vstd::prelude::*;
use crate::errors::{AppError, ConfigError};
use crate::numbers::{parse_u64, parse_usize, parsed_u64, parsed_usize};
use crate::ordering::{push_str, views};
use crate::state::config::{default_config, seconds, whole_seconds, Duration, KideConfig};
use crate::state::config_file::{config_from_toml, config_to_toml, config_from_toml_text, config_toml, lemma_saved_config_loads_back};
use crate::table::KeyedTable;
use crate::text::{owned, str_eq};

verus! {

/// The settings in the form in which files hold them: timeouts in seconds.
#[derive(Debug, Clone, Copy, PartialEq, Eq, Structural)]
pub struct SerializableConfig {
    pub connection_timeout_secs: u64,
    pub stream_timeout_secs: u64,
    pub cleanup_interval_secs: u64,
    pub max_fd_usage: usize,
    pub max_shell_command_length: usize,
    pub shell_env_timeout_secs: u64,
}

/// The file form of a configuration.
pub open spec fn serializable_of(c: KideConfig) -> SerializableConfig {
    SerializableConfig {
        connection_timeout_secs: c.connection_timeout.secs,
        stream_timeout_secs: c.stream_timeout.secs,
        cleanup_interval_secs: c.cleanup_interval.secs,
        max_fd_usage: c.max_fd_usage,
        max_shell_command_length: c.max_shell_command_length,
        shell_env_timeout_secs: c.shell_env_timeout.secs,
    }
}

/// The configuration that a file form describes.
pub open spec fn config_from_serializable(s: SerializableConfig) -> KideConfig {
    KideConfig {
        connection_timeout: seconds(s.connection_timeout_secs),
        stream_timeout: seconds(s.stream_timeout_secs),
        cleanup_interval: seconds(s.cleanup_interval_secs),
        max_fd_usage: s.max_fd_usage,
        max_shell_command_length: s.max_shell_command_length,
        shell_env_timeout: seconds(s.shell_env_timeout_secs),
    }
}

impl From<KideConfig> for SerializableConfig {
    fn from(config: KideConfig) -> (r: Self) {
        SerializableConfig {
            connection_timeout_secs: config.connection_timeout.as_secs(),
            stream_timeout_secs: config.stream_timeout.as_secs(),
            cleanup_interval_secs: config.cleanup_interval.as_secs(),
            max_fd_usage: config.max_fd_usage,
            max_shell_command_length: config.max_shell_command_length,
            shell_env_timeout_secs: config.shell_env_timeout.as_secs(),
        }
    }
}

impl vstd::std_specs::convert::FromSpecImpl<KideConfig> for SerializableConfig {
    open spec fn obeys_from_spec() -> bool {
        true
    }

    open spec fn from_spec(config: KideConfig) -> Self {
        serializable_of(config)
    }
}

impl From<SerializableConfig> for KideConfig {
    fn from(config: SerializableConfig) -> (r: Self) {
        KideConfig {
            connection_timeout: Duration::from_secs(config.connection_timeout_secs),
            stream_timeout: Duration::from_secs(config.stream_timeout_secs),
            cleanup_interval: Duration::from_secs(config.cleanup_interval_secs),
            max_fd_usage: config.max_fd_usage,
            max_shell_command_length: config.max_shell_command_length,
            shell_env_timeout: Duration::from_secs(config.shell_env_timeout_secs),
        }
    }
}

impl vstd::std_specs::convert::FromSpecImpl<SerializableConfig> for KideConfig {
    open spec fn obeys_from_spec() -> bool {
        true
    }

    open spec fn from_spec(config: SerializableConfig) -> Self {
        config_from_serializable(config)
    }
}

/// Writing a configuration in file form and reading it back gives the same
/// configuration when its timeouts are whole seconds (the unit of the file
/// form), and the other way round: no setting is lost.
pub proof fn lemma_serializable_round_trip(c: KideConfig, s: SerializableConfig)
    ensures
        whole_seconds(c) ==> config_from_serializable(serializable_of(c)) == c,
        serializable_of(config_from_serializable(s)) == s,
{
}

/// The values of the configuration's environment variables, each `None`
/// when the variable is not set.
#[derive(Debug)]
pub struct EnvValues {
    pub connection_timeout: Option<String>,
    pub stream_timeout: Option<String>,
    pub cleanup_interval: Option<String>,
    pub max_fd_usage: Option<String>,
    pub max_shell_command_length: Option<String>,
    pub shell_env_timeout: Option<String>,
}

/// The names of the settings' environment variables, after the prefix and
/// an underscore, in the order in which they are read.
pub open spec fn env_setting_names() -> Seq<Seq<char>> {
    seq![
        "CONNECTION_TIMEOUT"@,
        "STREAM_TIMEOUT"@,
        "CLEANUP_INTERVAL"@,
        "MAX_FD_USAGE"@,
        "MAX_SHELL_COMMAND_LENGTH"@,
        "SHELL_ENV_TIMEOUT"@,
    ]
}

/// What an invalid number of seconds should have been.
pub open spec fn seconds_expected() -> Seq<char> {
    "positive integer (seconds)"@
}

/// What an invalid count should have been.
pub open spec fn count_expected() -> Seq<char> {
    "positive integer"@
}

/// Whether a set variable does not hold a number of seconds.
pub open spec fn bad_secs(v: Option<String>) -> bool {
    v matches Some(s) && parsed_u64(s@) is None
}

/// Whether a set variable does not hold a count.
pub open spec fn bad_count(v: Option<String>) -> bool {
    v matches Some(s) && parsed_usize(s@) is None
}

/// The first variable, in reading order, whose value is not a number: the
/// setting's name, the value, and what was expected.
pub open spec fn env_problem(values: EnvValues) -> Option<(Seq<char>, Seq<char>, Seq<char>)> {
    if bad_secs(values.connection_timeout) {
        Some(("connection_timeout"@, values.connection_timeout->0@, seconds_expected()))
    } else if bad_secs(values.stream_timeout) {
        Some(("stream_timeout"@, values.stream_timeout->0@, seconds_expected()))
    } else if bad_secs(values.cleanup_interval) {
        Some(("cleanup_interval"@, values.cleanup_interval->0@, seconds_expected()))
    } else if bad_count(values.max_fd_usage) {
        Some(("max_fd_usage"@, values.max_fd_usage->0@, count_expected()))
    } else if bad_count(values.max_shell_command_length) {
        Some(("max_shell_command_length"@, values.max_shell_command_length->0@, count_expected()))
    } else if bad_secs(values.shell_env_timeout) {
        Some(("shell_env_timeout"@, values.shell_env_timeout->0@, seconds_expected()))
    } else {
        None
    }
}

/// A timeout overridden by a variable's number of seconds, if it is set.
pub open spec fn secs_or(v: Option<String>, d: Duration) -> Duration {
    match v {
        Some(s) => seconds(parsed_u64(s@)->0),
        None => d,
    }
}

/// A count overridden by a variable's value, if it is set.
pub open spec fn count_or(v: Option<String>, d: usize) -> usize {
    match v {
        Some(s) => parsed_usize(s@)->0,
        None => d,
    }
}

/// The configuration `base` with every set variable's value in place of the
/// setting's.
pub open spec fn env_applied(base: KideConfig, values: EnvValues) -> KideConfig {
    KideConfig {
        connection_timeout: secs_or(values.connection_timeout, base.connection_timeout),
        stream_timeout: secs_or(values.stream_timeout, base.stream_timeout),
        cleanup_interval: secs_or(values.cleanup_interval, base.cleanup_interval),
        max_fd_usage: count_or(values.max_fd_usage, base.max_fd_usage),
        max_shell_command_length: count_or(values.max_shell_command_length, base.max_shell_command_length),
        shell_env_timeout: secs_or(values.shell_env_timeout, base.shell_env_timeout),
    }
}

/// Without any variable set, the base configuration stands; and applying
/// the same variables a second time changes nothing more.
pub proof fn lemma_env_application(base: KideConfig, values: EnvValues)
    ensures
        env_problem(
            EnvValues {
                connection_timeout: None,
                stream_timeout: None,
                cleanup_interval: None,
                max_fd_usage: None,
                max_shell_command_length: None,
                shell_env_timeout: None,
            },
        ) is None,
        env_applied(
            base,
            EnvValues {
                connection_timeout: None,
                stream_timeout: None,
                cleanup_interval: None,
                max_fd_usage: None,
                max_shell_command_length: None,
                shell_env_timeout: None,
            },
        ) == base,
        env_applied(env_applied(base, values), values) == env_applied(base, values),
{
}

/// Whether `r` is the result of applying the environment variables to
/// `base`: the configuration with their values, or the invalid-value error
/// of the first variable that is not a number.
pub open spec fn env_outcome(base: KideConfig, values: EnvValues, r: Result<KideConfig, AppError>) -> bool {
    match env_problem(values) {
        None => r == Ok::<KideConfig, AppError>(env_applied(base, values)),
        Some((f, v, e)) => r matches Err(
            AppError::Config(ConfigError::InvalidValue { field, value, expected }),
        ) && field@ == f && value@ == v && expected@ == e,
    }
}

/// The first check that a configuration fails, as setting and message.
pub open spec fn validation_problem(c: KideConfig) -> Option<(Seq<char>, Seq<char>)> {
    if c.connection_timeout.secs == 0 {
        Some(("connection_timeout"@, "Connection timeout must be greater than 0 seconds"@))
    } else if c.connection_timeout.secs > 600 {
        Some(
            (
                "connection_timeout"@,
                "Connection timeout should not exceed 600 seconds (10 minutes)"@,
            ),
        )
    } else if c.stream_timeout.secs == 0 {
        Some(("stream_timeout"@, "Stream timeout must be greater than 0 seconds"@))
    } else if c.cleanup_interval.secs == 0 {
        Some(("cleanup_interval"@, "Cleanup interval must be greater than 0 seconds"@))
    } else if c.max_fd_usage == 0 {
        Some(("max_fd_usage"@, "Max file descriptor usage must be greater than 0"@))
    } else if c.max_fd_usage > 10000 {
        Some(("max_fd_usage"@, "Max file descriptor usage should not exceed 10000"@))
    } else if c.max_shell_command_length == 0 {
        Some(("max_shell_command_length"@, "Max shell command length must be greater than 0"@))
    } else if c.max_shell_command_length > 100_000 {
        Some(
            (
                "max_shell_command_length"@,
                "Max shell command length should not exceed 100,000 characters"@,
            ),
        )
    } else {
        None
    }
}

/// Whether `r` is the outcome of checking `c`.
pub open spec fn validation_outcome(c: KideConfig, r: Result<(), AppError>) -> bool {
    match validation_problem(c) {
        None => r is Ok,
        Some((f, m)) => r matches Err(AppError::Config(ConfigError::ValidationFailed { field, message }))
            && field@ == f && message@ == m,
    }
}

/// The environment the application runs in.
#[derive(Debug, Clone, Copy, PartialEq, Eq, Structural)]
pub enum DetectedEnvironment {
    Development,
    Testing,
    Production,
}

/// What the environment tells about where the application runs: the values
/// of `NODE_ENV`, `RUST_ENV` and `KIDE_ENV`, whether `CI`, `GITHUB_ACTIONS`
/// or `TRAVIS` are set, and whether this is a debug build.
#[derive(Debug)]
pub struct EnvironmentHints {
    pub node_env: Option<String>,
    pub rust_env: Option<String>,
    pub kide_env: Option<String>,
    pub ci: bool,
    pub github_actions: bool,
    pub travis: bool,
    pub debug_build: bool,
}

/// Whether an optional variable holds exactly `text`.
pub open spec fn holds(v: Option<String>, text: Seq<char>) -> bool {
    v matches Some(s) && s@ == text
}

/// The environment that the hints point to: development when one of the
/// three variables says so, then testing when one says `test` or a CI
/// marker is set, then development for a debug build, else production.
pub open spec fn environment_of(h: EnvironmentHints) -> DetectedEnvironment {
    if holds(h.node_env, "development"@) || holds(h.rust_env, "development"@) || holds(
        h.kide_env,
        "development"@,
    ) {
        DetectedEnvironment::Development
    } else if holds(h.node_env, "test"@) || holds(h.rust_env, "test"@) || holds(h.kide_env, "test"@) {
        DetectedEnvironment::Testing
    } else if h.ci || h.github_actions || h.travis {
        DetectedEnvironment::Testing
    } else if h.debug_build {
        DetectedEnvironment::Development
    } else {
        DetectedEnvironment::Production
    }
}

/// Whether an optional variable holds exactly `text`.
fn holds_text(v: &Option<String>, text: &str) -> (r: bool)
    ensures
        r == holds(*v, text@),
{
    match v {
        Some(s) => str_eq(s.as_str(), text),
        None => false,
    }
}

/// The environment the application runs in, from the hints.
pub fn detect_environment(hints: &EnvironmentHints) -> (r: DetectedEnvironment)
    ensures
        r == environment_of(*hints),
{
    if holds_text(&hints.node_env, "development") || holds_text(&hints.rust_env, "development")
        || holds_text(&hints.kide_env, "development") {
        return DetectedEnvironment::Development;
    }
    if holds_text(&hints.node_env, "test") || holds_text(&hints.rust_env, "test") || holds_text(
        &hints.kide_env,
        "test",
    ) {
        return DetectedEnvironment::Testing;
    }
    if hints.ci || hints.github_actions || hints.travis {
        return DetectedEnvironment::Testing;
    }
    if hints.debug_build {
        return DetectedEnvironment::Development;
    }
    DetectedEnvironment::Production
}

/// The environment's part in the configuration: the prefix of its
/// variables, the files that are looked for, the variables that are set,
/// and the detected environment.
#[derive(Debug)]
pub struct EnvironmentSummary {
    pub prefix: String,
    pub config_paths: Vec<String>,
    pub environment_variables: KeyedTable<String>,
    pub detected_environment: DetectedEnvironment,
}

/// A table with `name` bound to the variable's value, if it is set.
pub open spec fn with_var(m: Map<Seq<char>, String>, name: Seq<char>, v: Option<String>) -> Map<
    Seq<char>,
    String,
> {
    match v {
        Some(s) => m.insert(name, s),
        None => m,
    }
}

/// The full name of a setting's variable.
pub open spec fn var_name(prefix: Seq<char>, setting: Seq<char>) -> Seq<char> {
    prefix + "_"@ + setting
}

/// The set variables, by full name.
pub open spec fn set_variables(prefix: Seq<char>, values: EnvValues) -> Map<Seq<char>, String> {
    let m0 = Map::empty();
    let m1 = with_var(m0, var_name(prefix, "CONNECTION_TIMEOUT"@), values.connection_timeout);
    let m2 = with_var(m1, var_name(prefix, "STREAM_TIMEOUT"@), values.stream_timeout);
    let m3 = with_var(m2, var_name(prefix, "CLEANUP_INTERVAL"@), values.cleanup_interval);
    let m4 = with_var(m3, var_name(prefix, "MAX_FD_USAGE"@), values.max_fd_usage);
    let m5 = with_var(
        m4,
        var_name(prefix, "MAX_SHELL_COMMAND_LENGTH"@),
        values.max_shell_command_length,
    );
    with_var(m5, var_name(prefix, "SHELL_ENV_TIMEOUT"@), values.shell_env_timeout)
}

/// Where the configuration is looked for: the prefix of its environment
/// variables and the files, in order.
#[derive(Debug)]
pub struct ConfigLoader {
    env_prefix: String,
    config_paths: Vec<String>,
}

/// The files a new loader looks for, in order.
pub open spec fn default_config_paths() -> Seq<Seq<char>> {
    seq!["kide.toml"@, "config/kide.toml"@, "./kide/config.toml"@]
}

impl ConfigLoader {
    /// The prefix of the environment variables.
    pub closed spec fn prefix(&self) -> Seq<char> {
        self.env_prefix@
    }

    /// The files that are looked for, in order.
    pub closed spec fn paths(&self) -> Seq<Seq<char>> {
        views(self.config_paths@)
    }

    /// A loader with the prefix `KIDE` and the default files.
    pub fn new() -> (r: Self)
        ensures
            r.prefix() == "KIDE"@,
            r.paths() == default_config_paths(),
    {
        let mut paths: Vec<String> = Vec::new();
        paths.push(owned("kide.toml"));
        paths.push(owned("config/kide.toml"));
        paths.push(owned("./kide/config.toml"));
        let r = ConfigLoader { env_prefix: owned("KIDE"), config_paths: paths };
        assert(r.paths() =~= default_config_paths());
        r
    }

    /// The same loader with another prefix.
    pub fn env_prefix(self, prefix: &str) -> (r: Self)
        ensures
            r.prefix() == prefix@,
            r.paths() == self.paths(),
    {
        ConfigLoader { env_prefix: owned(prefix), config_paths: self.config_paths }
    }

    /// The same loader, also looking for `path` after the others.
    pub fn add_config_path(self, path: &str) -> (r: Self)
        ensures
            r.prefix() == self.prefix(),
            r.paths() == self.paths().push(path@),
    {
        let mut paths = self.config_paths;
        let ghost before = paths@;
        paths.push(owned(path));
        let r = ConfigLoader { env_prefix: self.env_prefix, config_paths: paths };
        assert(views(paths@) =~= views(before).push(path@));
        r
    }

    /// The prefix of the environment variables.
    pub fn prefix_text(&self) -> (r: String)
        ensures
            r@ == self.prefix(),
    {
        owned(self.env_prefix.as_str())
    }

    /// The files that are looked for, in order.
    pub fn config_paths(&self) -> (r: Vec<String>)
        ensures
            views(r@) == self.paths(),
    {
        let mut r: Vec<String> = Vec::new();
        let mut i: usize = 0;
        while i < self.config_paths.len()
            invariant
                i <= self.config_paths.len(),
                views(r@) == views(self.config_paths@).take(i as int),
            decreases self.config_paths.len() - i,
        {
            let ghost before = r@;
            r.push(owned(self.config_paths[i].as_str()));
            assert(views(r@) =~= views(before).push(self.config_paths@[i as int]@));
            assert(views(self.config_paths@).take(i + 1) =~= views(self.config_paths@).take(
                i as int,
            ).push(self.config_paths@[i as int]@));
            i = i + 1;
        }
        assert(views(self.config_paths@).take(i as int) =~= views(self.config_paths@));
        r
    }

    /// The full name of a setting's variable: the prefix, an underscore,
    /// and the setting.
    pub fn env_var_name(&self, setting: &str) -> (r: String)
        ensures
            r@ == var_name(self.prefix(), setting@),
    {
        let mut r = owned(self.env_prefix.as_str());
        push_str(&mut r, "_");
        push_str(&mut r, setting);
        r
    }

    /// The full names of the settings' variables, in reading order.
    pub fn env_variable_names(&self) -> (r: Vec<String>)
        ensures
            r@.len() == 6,
            forall|i: int|
                0 <= i < 6 ==> (#[trigger] r@[i])@ == var_name(self.prefix(), env_setting_names()[i]),
    {
        let mut r: Vec<String> = Vec::new();
        r.push(self.env_var_name("CONNECTION_TIMEOUT"));
        r.push(self.env_var_name("STREAM_TIMEOUT"));
        r.push(self.env_var_name("CLEANUP_INTERVAL"));
        r.push(self.env_var_name("MAX_FD_USAGE"));
        r.push(self.env_var_name("MAX_SHELL_COMMAND_LENGTH"));
        r.push(self.env_var_name("SHELL_ENV_TIMEOUT"));
        r
    }

    /// Applies the environment variables' values to `base_config`, in
    /// reading order; the first value that is not a number is refused.
    pub fn load_from_env(&self, base_config: KideConfig, values: EnvValues) -> (r: Result<
        KideConfig,
        AppError,
    >)
        ensures
            env_outcome(base_config, values, r),
    {
        let mut config = base_config;
        match values.connection_timeout {
            Some(v) => match parse_u64(v.as_str()) {
                Some(n) => {
                    config.connection_timeout = Duration::from_secs(n);
                },
                None => {
                    return Err(invalid_value("connection_timeout", v, "positive integer (seconds)"));
                },
            },
            None => {},
        }
        match values.stream_timeout {
            Some(v) => match parse_u64(v.as_str()) {
                Some(n) => {
                    config.stream_timeout = Duration::from_secs(n);
                },
                None => {
                    return Err(invalid_value("stream_timeout", v, "positive integer (seconds)"));
                },
            },
            None => {},
        }
        match values.cleanup_interval {
            Some(v) => match parse_u64(v.as_str()) {
                Some(n) => {
                    config.cleanup_interval = Duration::from_secs(n);
                },
                None => {
                    return Err(invalid_value("cleanup_interval", v, "positive integer (seconds)"));
                },
            },
            None => {},
        }
        match values.max_fd_usage {
            Some(v) => match parse_usize(v.as_str()) {
                Some(n) => {
                    config.max_fd_usage = n;
                },
                None => {
                    return Err(invalid_value("max_fd_usage", v, "positive integer"));
                },
            },
            None => {},
        }
        match values.max_shell_command_length {
            Some(v) => match parse_usize(v.as_str()) {
                Some(n) => {
                    config.max_shell_command_length = n;
                },
                None => {
                    return Err(invalid_value("max_shell_command_length", v, "positive integer"));
                },
            },
            None => {},
        }
        match values.shell_env_timeout {
            Some(v) => match parse_u64(v.as_str()) {
                Some(n) => {
                    config.shell_env_timeout = Duration::from_secs(n);
                },
                None => {
                    return Err(invalid_value("shell_env_timeout", v, "positive integer (seconds)"));
                },
            },
            None => {},
        }
        Ok(config)
    }

    /// Checks a configuration's timeouts and limits, in order.
    pub fn validate_config(&self, config: &KideConfig) -> (r: Result<(), AppError>)
        ensures
            validation_outcome(*config, r),
    {
        let c = config;
        if c.connection_timeout.as_secs() == 0 {
            return Err(validation_failed(
                "connection_timeout",
                "Connection timeout must be greater than 0 seconds",
            ));
        }
        if c.connection_timeout.as_secs() > 600 {
            return Err(validation_failed(
                "connection_timeout",
                "Connection timeout should not exceed 600 seconds (10 minutes)",
            ));
        }
        if c.stream_timeout.as_secs() == 0 {
            return Err(validation_failed("stream_timeout", "Stream timeout must be greater than 0 seconds"));
        }
        if c.cleanup_interval.as_secs() == 0 {
            return Err(validation_failed(
                "cleanup_interval",
                "Cleanup interval must be greater than 0 seconds",
            ));
        }
        if c.max_fd_usage == 0 {
            return Err(validation_failed("max_fd_usage", "Max file descriptor usage must be greater than 0"));
        }
        if c.max_fd_usage > 10000 {
            return Err(validation_failed("max_fd_usage", "Max file descriptor usage should not exceed 10000"));
        }
        if c.max_shell_command_length == 0 {
            return Err(validation_failed(
                "max_shell_command_length",
                "Max shell command length must be greater than 0",
            ));
        }
        if c.max_shell_command_length > 100_000 {
            return Err(validation_failed(
                "max_shell_command_length",
                "Max shell command length should not exceed 100,000 characters",
            ));
        }
        Ok(())
    }

    /// The configuration read from the first of the files that exists:
    /// `found` gives its position among the paths and what reading it gave,
    /// its text or the error's text. The text is read as TOML
    /// (`config_from_toml`); a text that does not hold a configuration gives
    /// a parse error that names the file; no file gives an error that lists
    /// every path.
    pub fn load_from_file(&self, found: Option<(usize, Result<String, String>)>) -> (r: Result<
        KideConfig,
        AppError,
    >)
        requires
            found matches Some((i, _)) ==> i < self.paths().len(),
        ensures
            match found {
                None => r matches Err(AppError::Config(ConfigError::NotFound { paths }))
                    && views(paths@) == self.paths(),
                Some((i, Err(e))) => r matches Err(
                    AppError::Config(ConfigError::FileReadError { path, error }),
                ) && path@ == self.paths()[i as int] && error@ == e@,
                Some((i, Ok(text))) => match config_from_toml(text@) {
                    Ok(c) => r == Ok::<KideConfig, AppError>(c),
                    Err(msg) => r matches Err(
                        AppError::Config(ConfigError::ParseError { path, error }),
                    ) && path@ == self.paths()[i as int] && error@ == msg,
                },
            },
    {
        match found {
            None => Err(AppError::Config(ConfigError::NotFound { paths: self.config_paths() })),
            Some((i, Err(e))) => {
                let path = owned(self.config_paths[i].as_str());
                Err(AppError::Config(ConfigError::FileReadError { path, error: e }))
            },
            Some((i, Ok(text))) => match config_from_toml_text(text.as_str()) {
                Ok(c) => Ok(c),
                Err(msg) => {
                    let path = owned(self.config_paths[i].as_str());
                    Err(AppError::Config(ConfigError::ParseError { path, error: msg }))
                },
            },
        }
    }

    /// The text to write when `config` is saved: the configuration as TOML,
    /// which `load_from_file` reads back to `config` when its timeouts are
    /// whole seconds (they are written in seconds).
    pub fn file_text(&self, config: &KideConfig) -> (r: String)
        ensures
            r@ == config_toml(*config),
            whole_seconds(*config) ==> config_from_toml(r@) == Ok::<KideConfig, Seq<char>>(*config),
    {
        proof {
            if whole_seconds(*config) {
                lemma_saved_config_loads_back(*config);
            }
        }
        config_to_toml(config)
    }

    /// What saving to `path` gives, from what writing the file gave: nothing
    /// on success, else a write error that names the file and says why.
    pub fn save_outcome(&self, path: &str, written: Result<(), String>) -> (r: Result<(), AppError>)
        ensures
            match written {
                Ok(()) => r is Ok,
                Err(e) => r matches Err(AppError::Config(ConfigError::FileWriteError { path: p, error }))
                    && p@ == path@ && error@ == e@,
            },
    {
        match written {
            Ok(()) => Ok(()),
            Err(e) => Err(AppError::Config(ConfigError::FileWriteError { path: owned(path), error: e })),
        }
    }

    /// The configuration from every source: the file's if one was read
    /// (else the default), with the environment variables applied, then
    /// checked.
    pub fn load(&self, file_config: Result<KideConfig, AppError>, values: EnvValues) -> (r: Result<
        KideConfig,
        AppError,
    >)
        ensures
            ({
                let base = match file_config {
                    Ok(c) => c,
                    Err(_) => default_config(),
                };
                match env_problem(values) {
                    Some(_) => env_outcome(base, values, r),
                    None => {
                        let c = env_applied(base, values);
                        match validation_problem(c) {
                            None => r == Ok::<KideConfig, AppError>(c),
                            Some(_) => validation_outcome(c, match r {
                                Ok(_) => Ok(()),
                                Err(e) => Err(e),
                            }),
                        }
                    },
                }
            }),
    {
        let base = match file_config {
            Ok(c) => c,
            Err(_) => KideConfig::default(),
        };
        let config = match self.load_from_env(base, values) {
            Ok(c) => c,
            Err(e) => return Err(e),
        };
        match self.validate_config(&config) {
            Ok(()) => Ok(config),
            Err(e) => Err(e),
        }
    }

    /// The environment's part in the configuration, from the values of the
    /// settings' variables and the detected environment.
    pub fn get_env_summary(&self, values: EnvValues, detected: DetectedEnvironment) -> (r:
        EnvironmentSummary)
        ensures
            r.prefix@ == self.prefix(),
            views(r.config_paths@) == self.paths(),
            r.environment_variables@ == set_variables(self.prefix(), values),
            r.detected_environment == detected,
    {
        let mut vars: KeyedTable<String> = KeyedTable::new();
        let ghost p = self.prefix();
        let ghost m0 = Map::<Seq<char>, String>::empty();
        let ghost m1 = with_var(m0, var_name(p, "CONNECTION_TIMEOUT"@), values.connection_timeout);
        let ghost m2 = with_var(m1, var_name(p, "STREAM_TIMEOUT"@), values.stream_timeout);
        let ghost m3 = with_var(m2, var_name(p, "CLEANUP_INTERVAL"@), values.cleanup_interval);
        let ghost m4 = with_var(m3, var_name(p, "MAX_FD_USAGE"@), values.max_fd_usage);
        let ghost m5 = with_var(
            m4,
            var_name(p, "MAX_SHELL_COMMAND_LENGTH"@),
            values.max_shell_command_length,
        );
        match values.connection_timeout {
            Some(v) => {
                vars.insert(self.env_var_name("CONNECTION_TIMEOUT"), v);
            },
            None => {},
        }
        assert(vars@ == m1);
        match values.stream_timeout {
            Some(v) => {
                vars.insert(self.env_var_name("STREAM_TIMEOUT"), v);
            },
            None => {},
        }
        assert(vars@ == m2);
        match values.cleanup_interval {
            Some(v) => {
                vars.insert(self.env_var_name("CLEANUP_INTERVAL"), v);
            },
            None => {},
        }
        assert(vars@ == m3);
        match values.max_fd_usage {
            Some(v) => {
                vars.insert(self.env_var_name("MAX_FD_USAGE"), v);
            },
            None => {},
        }
        assert(vars@ == m4);
        match values.max_shell_command_length {
            Some(v) => {
                vars.insert(self.env_var_name("MAX_SHELL_COMMAND_LENGTH"), v);
            },
            None => {},
        }
        assert(vars@ == m5);
        match values.shell_env_timeout {
            Some(v) => {
                vars.insert(self.env_var_name("SHELL_ENV_TIMEOUT"), v);
            },
            None => {},
        }
        EnvironmentSummary {
            prefix: self.prefix_text(),
            config_paths: self.config_paths(),
            environment_variables: vars,
            detected_environment: detected,
        }
    }
}

impl Default for ConfigLoader {
    /// A loader with the prefix `KIDE` and the default files.
    fn default() -> (r: Self)
        ensures
            r.prefix() == "KIDE"@,
            r.paths() == default_config_paths(),
    {
        ConfigLoader::new()
    }
}

/// The error of a setting whose variable holds `value`, not a number.
fn invalid_value(field: &str, value: String, expected: &str) -> (r: AppError)
    ensures
        r matches AppError::Config(ConfigError::InvalidValue { field: f, value: v, expected: e })
            && f@ == field@ && v == value && e@ == expected@,
{
    AppError::Config(
        ConfigError::InvalidValue { field: owned(field), value, expected: owned(expected) },
    )
}

/// The error of a setting that fails a check.
pub(crate) fn validation_failed(field: &str, message: &str) -> (r: AppError)
    ensures
        r matches AppError::Config(ConfigError::ValidationFailed { field: f, message: m })
            && f@ == field@ && m@ == message@,
{
    AppError::Config(ConfigError::validation_failed(field, message))
}

} // verus!
