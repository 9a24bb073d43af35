//! The configuration of the application and its presets.
use vstd::prelude::*;

verus! {

/// A span of time: whole seconds and the nanoseconds of the last,
/// unfinished second (below one billion when made by these constructors).
#[derive(Debug, Clone, Copy, PartialEq, Eq, Structural)]
pub struct Duration {
    pub secs: u64,
    pub nanos: u32,
}

/// A span of whole seconds.
pub open spec fn seconds(secs: u64) -> Duration {
    Duration { secs, nanos: 0 }
}

impl Duration {
    /// A span of `secs` seconds.
    pub fn from_secs(secs: u64) -> (r: Self)
        ensures
            r == seconds(secs),
    {
        Duration { secs, nanos: 0 }
    }

    /// A span of `millis` milliseconds.
    pub fn from_millis(millis: u64) -> (r: Self)
        ensures
            r.secs == millis / 1000,
            r.nanos == (millis % 1000) * 1_000_000,
    {
        Duration { secs: millis / 1000, nanos: ((millis % 1000) as u32) * 1_000_000 }
    }

    /// The number of whole seconds.
    pub fn as_secs(&self) -> (r: u64)
        ensures
            r == self.secs,
    {
        self.secs
    }

    /// The nanoseconds beyond the whole seconds.
    pub fn subsec_nanos(&self) -> (r: u32)
        ensures
            r == self.nanos,
    {
        self.nanos
    }
}

/// Whether every timeout of a configuration is a whole number of seconds,
/// the unit in which configurations are written out.
pub open spec fn whole_seconds(c: KideConfig) -> bool {
    c.connection_timeout.nanos == 0 && c.stream_timeout.nanos == 0 && c.cleanup_interval.nanos == 0
        && c.shell_env_timeout.nanos == 0
}

/// The settings of the application: its timeouts and limits.
#[derive(Debug, Clone, Copy, PartialEq, Eq, Structural)]
pub struct KideConfig {
    /// Timeout for Kubernetes API connections.
    pub connection_timeout: Duration,
    /// Timeout for streaming operations (logs, watches).
    pub stream_timeout: Duration,
    /// Interval of the cleanup tasks.
    pub cleanup_interval: Duration,
    /// File descriptor usage above which a warning is given.
    pub max_fd_usage: usize,
    /// Maximum length of a shell command.
    pub max_shell_command_length: usize,
    /// Timeout for detecting the shell environment.
    pub shell_env_timeout: Duration,
}

/// A configuration from its values, timeouts in seconds.
pub open spec fn config_of(
    connection: u64,
    stream: u64,
    cleanup: u64,
    max_fd_usage: usize,
    max_shell_command_length: usize,
    shell_env: u64,
) -> KideConfig {
    KideConfig {
        connection_timeout: seconds(connection),
        stream_timeout: seconds(stream),
        cleanup_interval: seconds(cleanup),
        max_fd_usage,
        max_shell_command_length,
        shell_env_timeout: seconds(shell_env),
    }
}

/// The default configuration.
pub open spec fn default_config() -> KideConfig {
    config_of(30, 60, 60, 500, 1024, 10)
}

/// The development preset: shorter timeouts.
pub open spec fn development_config() -> KideConfig {
    config_of(10, 30, 30, 500, 1024, 5)
}

/// The production preset: longer timeouts, higher limits.
pub open spec fn production_config() -> KideConfig {
    config_of(60, 300, 120, 1000, 2048, 10)
}

/// The testing preset: short timeouts, low limits.
pub open spec fn testing_config() -> KideConfig {
    config_of(5, 10, 10, 100, 512, 2)
}

impl Default for KideConfig {
    /// The default configuration.
    fn default() -> (r: Self)
        ensures
            r == default_config(),
    {
        KideConfig {
            connection_timeout: Duration::from_secs(30),
            stream_timeout: Duration::from_secs(60),
            cleanup_interval: Duration::from_secs(60),
            max_fd_usage: 500,
            max_shell_command_length: 1024,
            shell_env_timeout: Duration::from_secs(10),
        }
    }
}

impl KideConfig {
    /// The default configuration.
    pub fn new() -> (r: Self)
        ensures
            r == default_config(),
    {
        KideConfig::default()
    }

    /// The development preset: shorter timeouts, default limits.
    pub fn development() -> (r: Self)
        ensures
            r == development_config(),
    {
        KideConfig {
            connection_timeout: Duration::from_secs(10),
            stream_timeout: Duration::from_secs(30),
            cleanup_interval: Duration::from_secs(30),
            shell_env_timeout: Duration::from_secs(5),
            ..KideConfig::default()
        }
    }

    /// The production preset: longer timeouts, higher limits.
    pub fn production() -> (r: Self)
        ensures
            r == production_config(),
    {
        KideConfig {
            connection_timeout: Duration::from_secs(60),
            stream_timeout: Duration::from_secs(300),
            cleanup_interval: Duration::from_secs(120),
            max_fd_usage: 1000,
            max_shell_command_length: 2048,
            ..KideConfig::default()
        }
    }

    /// The testing preset: short timeouts, low limits.
    pub fn testing() -> (r: Self)
        ensures
            r == testing_config(),
    {
        KideConfig {
            connection_timeout: Duration::from_secs(5),
            stream_timeout: Duration::from_secs(10),
            cleanup_interval: Duration::from_secs(10),
            max_fd_usage: 100,
            max_shell_command_length: 512,
            shell_env_timeout: Duration::from_secs(2),
        }
    }
}

} // verus!
