//! Building the application state: which configuration it gets and the
//! checks that configuration must pass.
use vstd::prelude::*;
use crate::errors::{AppError, ConfigError};
use crate::security::{InputSanitizer, ShellValidator};
use crate::security::shell_validator::{default_allowed_shells, DEFAULT_MAX_COMMAND_LENGTH};
use crate::state::config::{default_config, development_config, production_config, testing_config, KideConfig};
use crate::state::config_loader::{validation_failed, validation_problem};

verus! {

/// The environment the application is built for; a custom one brings its
/// own configuration.
#[derive(Debug, Clone, Copy, PartialEq, Eq, Structural)]
pub enum Environment {
    Development,
    Testing,
    Production,
    Custom(KideConfig),
}

/// The configuration of an environment.
pub open spec fn environment_config(e: Environment) -> KideConfig {
    match e {
        Environment::Development => development_config(),
        Environment::Testing => testing_config(),
        Environment::Production => production_config(),
        Environment::Custom(c) => c,
    }
}

/// The configuration a builder settles on: the one it was given, else its
/// environment's.
pub open spec fn resolved_config(config: Option<KideConfig>, environment: Environment) -> KideConfig {
    match config {
        Some(c) => c,
        None => environment_config(environment),
    }
}

/// The first check that a built configuration fails, as setting and
/// message: a zero connection timeout, shell command length or file
/// descriptor limit.
pub open spec fn build_problem(c: KideConfig) -> Option<(Seq<char>, Seq<char>)> {
    if c.connection_timeout.secs == 0 {
        Some(("connection_timeout"@, "Connection timeout must be greater than 0"@))
    } else if c.max_shell_command_length == 0 {
        Some(("max_shell_command_length"@, "Max shell command length must be greater than 0"@))
    } else if c.max_fd_usage == 0 {
        Some(("max_fd_usage"@, "Max file descriptor usage must be greater than 0"@))
    } else {
        None
    }
}

/// Every preset configuration (the default, development, testing and
/// production) passes both the loader's checks and the builder's, so a
/// builder without a configuration of its own always builds.
pub proof fn lemma_presets_are_valid()
    ensures
        validation_problem(default_config()) is None,
        validation_problem(development_config()) is None,
        validation_problem(testing_config()) is None,
        validation_problem(production_config()) is None,
        build_problem(default_config()) is None,
        build_problem(development_config()) is None,
        build_problem(testing_config()) is None,
        build_problem(production_config()) is None,
        forall|e: Environment| !(e is Custom) ==> build_problem(#[trigger] resolved_config(None, e)) is None,
{
}

/// A configuration that the loader accepts, the builder accepts too: the
/// builder checks a part of what the loader checks.
pub proof fn lemma_loaded_configs_build(c: KideConfig)
    ensures
        validation_problem(c) is None ==> build_problem(c) is None,
{
}

/// The parts of the application state that do not talk to the cluster: the
/// configuration and the validators.
#[derive(Debug)]
pub struct BuiltState {
    pub config: KideConfig,
    pub shell_validator: ShellValidator,
    pub input_sanitizer: InputSanitizer,
}

/// Builds the application state's configuration and validators.
#[derive(Debug)]
pub struct AppStateBuilder {
    config: Option<KideConfig>,
    shell_validator: Option<ShellValidator>,
    input_sanitizer: Option<InputSanitizer>,
    environment: Environment,
}

impl AppStateBuilder {
    /// The configuration given to the builder, if any.
    pub closed spec fn given_config(&self) -> Option<KideConfig> {
        self.config
    }

    /// The environment the builder builds for.
    pub closed spec fn target(&self) -> Environment {
        self.environment
    }

    /// The shell validator given to the builder, if any.
    pub closed spec fn given_validator(&self) -> Option<ShellValidator> {
        self.shell_validator
    }

    /// The input sanitizer given to the builder, if any.
    pub closed spec fn given_sanitizer(&self) -> Option<InputSanitizer> {
        self.input_sanitizer
    }

    /// A builder for production, with no configuration given.
    pub fn new() -> (r: Self)
        ensures
            r.given_config() is None,
            r.target() == Environment::Production,
            r.given_validator() is None,
            r.given_sanitizer() is None,
    {
        AppStateBuilder {
            config: None,
            shell_validator: None,
            input_sanitizer: None,
            environment: Environment::Production,
        }
    }

    /// The same builder for another environment.
    pub fn environment(self, env: Environment) -> (r: Self)
        ensures
            r.given_config() == self.given_config(),
            r.target() == env,
            r.given_validator() == self.given_validator(),
            r.given_sanitizer() == self.given_sanitizer(),
    {
        AppStateBuilder { environment: env, ..self }
    }

    /// The same builder with a configuration of its own.
    pub fn config(self, config: KideConfig) -> (r: Self)
        ensures
            r.given_config() == Some(config),
            r.target() == self.target(),
            r.given_validator() == self.given_validator(),
            r.given_sanitizer() == self.given_sanitizer(),
    {
        AppStateBuilder { config: Some(config), ..self }
    }

    /// The same builder with a given shell validator.
    pub fn shell_validator(self, validator: ShellValidator) -> (r: Self)
        ensures
            r.given_config() == self.given_config(),
            r.target() == self.target(),
            r.given_validator() == Some(validator),
            r.given_sanitizer() == self.given_sanitizer(),
    {
        AppStateBuilder { shell_validator: Some(validator), ..self }
    }

    /// The same builder with a given input sanitizer.
    pub fn input_sanitizer(self, sanitizer: InputSanitizer) -> (r: Self)
        ensures
            r.given_config() == self.given_config(),
            r.target() == self.target(),
            r.given_validator() == self.given_validator(),
            r.given_sanitizer() == Some(sanitizer),
    {
        AppStateBuilder { input_sanitizer: Some(sanitizer), ..self }
    }

    /// The same builder for development.
    pub fn for_development(self) -> (r: Self)
        ensures
            r.given_config() == self.given_config(),
            r.target() == Environment::Development,
            r.given_validator() == self.given_validator(),
            r.given_sanitizer() == self.given_sanitizer(),
    {
        self.environment(Environment::Development)
    }

    /// The same builder for testing.
    pub fn for_testing(self) -> (r: Self)
        ensures
            r.given_config() == self.given_config(),
            r.target() == Environment::Testing,
            r.given_validator() == self.given_validator(),
            r.given_sanitizer() == self.given_sanitizer(),
    {
        self.environment(Environment::Testing)
    }

    /// The same builder for production.
    pub fn for_production(self) -> (r: Self)
        ensures
            r.given_config() == self.given_config(),
            r.target() == Environment::Production,
            r.given_validator() == self.given_validator(),
            r.given_sanitizer() == self.given_sanitizer(),
    {
        self.environment(Environment::Production)
    }

    /// The configuration the builder settles on.
    pub fn resolve_config(&self) -> (r: KideConfig)
        ensures
            r == resolved_config(self.given_config(), self.target()),
    {
        match self.config {
            Some(c) => c,
            None => match self.environment {
                Environment::Development => KideConfig::development(),
                Environment::Testing => KideConfig::testing(),
                Environment::Production => KideConfig::production(),
                Environment::Custom(c) => c,
            },
        }
    }

    /// Checks a configuration before it is built into the state.
    pub fn validate_config(&self, config: &KideConfig) -> (r: Result<(), AppError>)
        ensures
            match build_problem(*config) {
                None => r is Ok,
                Some((f, m)) => r matches Err(
                    AppError::Config(ConfigError::ValidationFailed { field, message }),
                ) && field@ == f && message@ == m,
            },
    {
        if config.connection_timeout.as_secs() == 0 {
            return Err(validation_failed("connection_timeout", "Connection timeout must be greater than 0"));
        }
        if config.max_shell_command_length == 0 {
            return Err(validation_failed(
                "max_shell_command_length",
                "Max shell command length must be greater than 0",
            ));
        }
        if config.max_fd_usage == 0 {
            return Err(validation_failed("max_fd_usage", "Max file descriptor usage must be greater than 0"));
        }
        Ok(())
    }

    /// The configuration, checked, with the given validators or new ones.
    pub fn build(self) -> (r: Result<BuiltState, AppError>)
        ensures
            ({
                let c = resolved_config(self.given_config(), self.target());
                match build_problem(c) {
                    None => r matches Ok(s) && s.config == c && match self.given_validator() {
                        Some(v) => s.shell_validator == v,
                        None => s.shell_validator.allowed() == default_allowed_shells()
                            && s.shell_validator.max_length() == DEFAULT_MAX_COMMAND_LENGTH,
                    },
                    Some((f, m)) => r matches Err(
                        AppError::Config(ConfigError::ValidationFailed { field, message }),
                    ) && field@ == f && message@ == m,
                }
            }),
    {
        let config = self.resolve_config();
        match self.validate_config(&config) {
            Ok(()) => {},
            Err(e) => return Err(e),
        }
        let shell_validator = match self.shell_validator {
            Some(v) => v,
            None => ShellValidator::new(),
        };
        let input_sanitizer = match self.input_sanitizer {
            Some(s) => s,
            None => InputSanitizer::new(),
        };
        Ok(BuiltState { config, shell_validator, input_sanitizer })
    }
}

impl Default for AppStateBuilder {
    /// A builder for production, with no configuration given.
    fn default() -> (r: Self)
        ensures
            r.given_config() is None,
            r.given_validator() is None,
            r.given_sanitizer() is None,
            r.target() == Environment::Production,
    {
        AppStateBuilder::new()
    }
}

} // verus!
