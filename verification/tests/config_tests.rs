use kide::errors::{AppError, ConfigError};
use kide::state::builder::{AppStateBuilder, Environment};
use kide::state::config::{Duration, KideConfig};
use kide::state::config_file::config_from_toml_text;
use kide::security::ShellValidator;
use kide::state::config_loader::{
    detect_environment, ConfigLoader, DetectedEnvironment, EnvValues, EnvironmentHints,
    SerializableConfig,
};

fn no_env() -> EnvValues {
    EnvValues {
        connection_timeout: None,
        stream_timeout: None,
        cleanup_interval: None,
        max_fd_usage: None,
        max_shell_command_length: None,
        shell_env_timeout: None,
    }
}

#[test]
fn test_config_loader_default() {
    let loader = ConfigLoader::new();
    let file = loader.load_from_file(None);
    let config = loader.load(file, no_env()).unwrap();

    assert!(config.connection_timeout.as_secs() > 0);
    assert!(config.max_fd_usage > 0);
}

#[test]
fn test_config_from_env() {
    let values = EnvValues {
        connection_timeout: Some("45".to_string()),
        max_fd_usage: Some("750".to_string()),
        ..no_env()
    };

    let loader = ConfigLoader::new();
    let config = loader.load_from_env(KideConfig::default(), values).unwrap();

    assert_eq!(config.connection_timeout.as_secs(), 45);
    assert_eq!(config.max_fd_usage, 750);
}

#[test]
fn test_config_validation() {
    let loader = ConfigLoader::new();

    // Valid configuration
    let valid_config = KideConfig::default();
    assert!(loader.validate_config(&valid_config).is_ok());

    // Invalid configuration
    let invalid_config = KideConfig { connection_timeout: Duration::from_secs(0), ..Default::default() };
    assert!(loader.validate_config(&invalid_config).is_err());
}

#[test]
fn test_serializable_config_conversion() {
    let original = KideConfig::default();
    let serializable: SerializableConfig = original.clone().into();
    let restored: KideConfig = serializable.into();

    assert_eq!(original.connection_timeout, restored.connection_timeout);
    assert_eq!(original.max_fd_usage, restored.max_fd_usage);
}

#[test]
fn test_environment_detection() {
    let loader = ConfigLoader::new();
    let hints = EnvironmentHints {
        node_env: None,
        rust_env: None,
        kide_env: None,
        ci: false,
        github_actions: false,
        travis: false,
        debug_build: true,
    };
    let summary = loader.get_env_summary(no_env(), detect_environment(&hints));

    assert_eq!(summary.prefix, "KIDE");
    assert!(!summary.config_paths.is_empty());
}

#[test]
fn serializable_round_trip_keeps_every_setting() {
    for c in [KideConfig::development(), KideConfig::production(), KideConfig::testing()] {
        let s: SerializableConfig = c.into();
        let back: KideConfig = s.into();
        assert_eq!(back, c);
        let again: SerializableConfig = back.into();
        assert_eq!(again, s);
    }
}

#[test]
fn presets() {
    let d = KideConfig::development();
    assert_eq!(d.connection_timeout.as_secs(), 10);
    assert_eq!(d.stream_timeout.as_secs(), 30);
    assert_eq!(d.cleanup_interval.as_secs(), 30);
    assert_eq!(d.shell_env_timeout.as_secs(), 5);
    assert_eq!(d.max_fd_usage, 500);
    let p = KideConfig::production();
    assert_eq!(p.stream_timeout.as_secs(), 300);
    assert_eq!(p.max_shell_command_length, 2048);
    assert_eq!(p.shell_env_timeout.as_secs(), 10);
    let t = KideConfig::testing();
    assert_eq!(t.max_fd_usage, 100);
    assert_eq!(t.shell_env_timeout.as_secs(), 2);
    assert_eq!(KideConfig::new(), KideConfig::default());
}

#[test]
fn env_values_are_checked_in_order() {
    let loader = ConfigLoader::new();
    let values = EnvValues {
        stream_timeout: Some("soon".to_string()),
        max_fd_usage: Some("-1".to_string()),
        ..no_env()
    };
    match loader.load_from_env(KideConfig::default(), values) {
        Err(AppError::Config(ConfigError::InvalidValue { field, value, expected })) => {
            assert_eq!(field, "stream_timeout");
            assert_eq!(value, "soon");
            assert_eq!(expected, "positive integer (seconds)");
        }
        other => panic!("unexpected {:?}", other),
    }
    let values = EnvValues { max_shell_command_length: Some("12x".to_string()), ..no_env() };
    match loader.load_from_env(KideConfig::default(), values) {
        Err(AppError::Config(ConfigError::InvalidValue { field, expected, .. })) => {
            assert_eq!(field, "max_shell_command_length");
            assert_eq!(expected, "positive integer");
        }
        other => panic!("unexpected {:?}", other),
    }
    let values = EnvValues { shell_env_timeout: Some("+7".to_string()), ..no_env() };
    assert_eq!(loader.load_from_env(KideConfig::default(), values).unwrap().shell_env_timeout.as_secs(), 7);
}

#[test]
fn validation_messages() {
    let loader = ConfigLoader::new();
    let check = |c: KideConfig, f: &str, m: &str| match loader.validate_config(&c) {
        Err(AppError::Config(ConfigError::ValidationFailed { field, message })) => {
            assert_eq!(field, f);
            assert_eq!(message, m);
        }
        other => panic!("unexpected {:?}", other),
    };
    let d = KideConfig::default();
    check(
        KideConfig { connection_timeout: Duration::from_secs(601), ..d },
        "connection_timeout",
        "Connection timeout should not exceed 600 seconds (10 minutes)",
    );
    check(KideConfig { stream_timeout: Duration::from_secs(0), ..d }, "stream_timeout", "Stream timeout must be greater than 0 seconds");
    check(KideConfig { cleanup_interval: Duration::from_secs(0), ..d }, "cleanup_interval", "Cleanup interval must be greater than 0 seconds");
    check(KideConfig { max_fd_usage: 0, ..d }, "max_fd_usage", "Max file descriptor usage must be greater than 0");
    check(KideConfig { max_fd_usage: 10001, ..d }, "max_fd_usage", "Max file descriptor usage should not exceed 10000");
    check(KideConfig { max_shell_command_length: 0, ..d }, "max_shell_command_length", "Max shell command length must be greater than 0");
    check(
        KideConfig { max_shell_command_length: 100_001, ..d },
        "max_shell_command_length",
        "Max shell command length should not exceed 100,000 characters",
    );
    assert!(loader.validate_config(&KideConfig { connection_timeout: Duration::from_secs(600), ..d }).is_ok());
}

#[test]
fn loading_from_files() {
    let loader = ConfigLoader::new().add_config_path("/etc/kide.toml");
    match loader.load_from_file(None) {
        Err(AppError::Config(ConfigError::NotFound { paths })) => {
            assert_eq!(paths, vec!["kide.toml", "config/kide.toml", "./kide/config.toml", "/etc/kide.toml"]);
        }
        other => panic!("unexpected {:?}", other),
    }
    match loader.load_from_file(Some((1, Err("permission denied".to_string())))) {
        Err(AppError::Config(ConfigError::FileReadError { path, error })) => {
            assert_eq!(path, "config/kide.toml");
            assert_eq!(error, "permission denied");
        }
        other => panic!("unexpected {:?}", other),
    }
    let saved = loader.file_text(&KideConfig::default());
    assert_eq!(loader.load_from_file(Some((0, Ok(saved)))).unwrap(), KideConfig::default());
    match loader.load_from_file(Some((2, Ok("max_fd_usage 5\n".to_string())))) {
        Err(AppError::Config(ConfigError::ParseError { path, error })) => {
            assert_eq!(path, "./kide/config.toml");
            assert_eq!(error, "invalid line: max_fd_usage 5");
        }
        other => panic!("unexpected {:?}", other),
    }
}

#[test]
fn saved_configurations_load_back() {
    let loader = ConfigLoader::new();
    for config in [KideConfig::default(), KideConfig::production(), KideConfig::development()] {
        let text = loader.file_text(&config);
        assert_eq!(loader.load_from_file(Some((0, Ok(text)))).unwrap(), config);
    }
    let text = loader.file_text(&KideConfig::default());
    assert_eq!(
        text,
        "# Kide configuration\nconnection_timeout_secs = 30\nstream_timeout_secs = 60\n\
         cleanup_interval_secs = 60\nmax_fd_usage = 500\nmax_shell_command_length = 1024\n\
         shell_env_timeout_secs = 10\n"
    );
}

#[test]
fn configuration_text_is_read_as_toml() {
    let text = "# settings\r\n\n  connection_timeout_secs=5 \n\tstream_timeout_secs = 6\n\
                cleanup_interval_secs = 7\nmax_fd_usage = 8\nmax_shell_command_length = 9\n\
                shell_env_timeout_secs = 10\nextra-key = whatever";
    let c = config_from_toml_text(text).unwrap();
    assert_eq!(c.connection_timeout.as_secs(), 5);
    assert_eq!(c.stream_timeout.as_secs(), 6);
    assert_eq!(c.cleanup_interval.as_secs(), 7);
    assert_eq!(c.max_fd_usage, 8);
    assert_eq!(c.max_shell_command_length, 9);
    assert_eq!(c.shell_env_timeout.as_secs(), 10);
    assert_eq!(
        config_from_toml_text("connection_timeout_secs = 1\n").unwrap_err(),
        "missing field `stream_timeout_secs`"
    );
    assert_eq!(
        config_from_toml_text("connection_timeout_secs = soon\n").unwrap_err(),
        "invalid value for `connection_timeout_secs`: soon"
    );
    assert_eq!(
        config_from_toml_text("a = 1\na = 2\n").unwrap_err(),
        "duplicate key `a`"
    );
    assert_eq!(config_from_toml_text("= 1").unwrap_err(), "invalid line: = 1");
}

#[test]
fn load_applies_env_then_validates() {
    let loader = ConfigLoader::new();
    let config = loader
        .load(Ok(KideConfig::production()), EnvValues { cleanup_interval: Some("15".to_string()), ..no_env() })
        .unwrap();
    assert_eq!(config.cleanup_interval.as_secs(), 15);
    assert_eq!(config.stream_timeout.as_secs(), 300);
    let bad = loader.load(Ok(KideConfig::default()), EnvValues { connection_timeout: Some("0".to_string()), ..no_env() });
    assert!(matches!(bad, Err(AppError::Config(ConfigError::ValidationFailed { .. }))));
}

#[test]
fn env_names_and_summary() {
    let loader = ConfigLoader::new().env_prefix("TEST");
    assert_eq!(loader.env_var_name("STREAM_TIMEOUT"), "TEST_STREAM_TIMEOUT");
    let names = loader.env_variable_names();
    assert_eq!(names.len(), 6);
    assert_eq!(names[0], "TEST_CONNECTION_TIMEOUT");
    assert_eq!(names[5], "TEST_SHELL_ENV_TIMEOUT");
    let summary = loader.get_env_summary(
        EnvValues { max_fd_usage: Some("10".to_string()), ..no_env() },
        DetectedEnvironment::Production,
    );
    assert_eq!(summary.prefix, "TEST");
    assert_eq!(summary.environment_variables.len(), 1);
    assert_eq!(summary.environment_variables.get("TEST_MAX_FD_USAGE").map(|s| s.as_str()), Some("10"));
    assert_eq!(summary.detected_environment, DetectedEnvironment::Production);
}

#[test]
fn environment_detection_order() {
    let hints = |node: Option<&str>, kide: Option<&str>, ci: bool, debug: bool| EnvironmentHints {
        node_env: node.map(|s| s.to_string()),
        rust_env: None,
        kide_env: kide.map(|s| s.to_string()),
        ci,
        github_actions: false,
        travis: false,
        debug_build: debug,
    };
    assert_eq!(detect_environment(&hints(Some("development"), Some("test"), true, false)), DetectedEnvironment::Development);
    assert_eq!(detect_environment(&hints(None, Some("test"), false, true)), DetectedEnvironment::Testing);
    assert_eq!(detect_environment(&hints(None, None, true, true)), DetectedEnvironment::Testing);
    assert_eq!(detect_environment(&hints(Some("production"), None, false, true)), DetectedEnvironment::Development);
    assert_eq!(detect_environment(&hints(None, None, false, false)), DetectedEnvironment::Production);
}

#[test]
fn test_app_state_builder_default() {
    let builder = AppStateBuilder::new();
    let state = builder.build().unwrap();

    assert!(state.config.connection_timeout.as_secs() > 0);
    assert!(state.config.max_fd_usage > 0);
}

#[test]
fn test_app_state_builder_development() {
    let state = AppStateBuilder::new().for_development().build().unwrap();

    // Development should have shorter timeouts
    assert_eq!(state.config.connection_timeout.as_secs(), 10);
    assert_eq!(state.config.stream_timeout.as_secs(), 30);
}

#[test]
fn test_app_state_builder_validation() {
    let invalid_config = KideConfig { connection_timeout: Duration::from_secs(0), ..Default::default() };

    let result = AppStateBuilder::new().config(invalid_config).build();

    assert!(result.is_err());
}

#[test]
fn builder_resolution() {
    assert_eq!(AppStateBuilder::new().build().unwrap().config, KideConfig::production());
    assert_eq!(AppStateBuilder::new().for_testing().build().unwrap().config, KideConfig::testing());
    let custom = KideConfig { max_fd_usage: 42, ..KideConfig::default() };
    assert_eq!(AppStateBuilder::new().environment(Environment::Custom(custom)).resolve_config(), custom);
    assert_eq!(
        AppStateBuilder::new().config(KideConfig::testing()).for_production().resolve_config(),
        KideConfig::testing()
    );
    match AppStateBuilder::new().config(KideConfig { max_fd_usage: 0, ..KideConfig::default() }).build() {
        Err(AppError::Config(ConfigError::ValidationFailed { field, message })) => {
            assert_eq!(field, "max_fd_usage");
            assert_eq!(message, "Max file descriptor usage must be greater than 0");
        }
        _ => panic!("expected a validation error"),
    }
}

#[test]
fn every_preset_passes_both_checks() {
    let loader = ConfigLoader::new();
    for preset in [KideConfig::default(), KideConfig::development(), KideConfig::testing(), KideConfig::production()] {
        assert!(loader.validate_config(&preset).is_ok());
        assert!(AppStateBuilder::new().config(preset).build().is_ok());
    }
    let loaded = loader.load_from_env(KideConfig::default(), no_env()).unwrap();
    assert!(AppStateBuilder::new().config(loaded).build().is_ok());
}

#[test]
fn builder_keeps_a_given_shell_validator() {
    let state = AppStateBuilder::new().shell_validator(ShellValidator::new()).build().unwrap();
    assert!(state.shell_validator.is_allowed_shell("bash"));
    assert!(!state.shell_validator.is_allowed_shell("fish"));
}

#[test]
fn applying_env_values_twice_changes_nothing_more() {
    let loader = ConfigLoader::new();
    let values = || EnvValues {
        connection_timeout: Some("45".to_string()),
        max_fd_usage: Some("700".to_string()),
        ..no_env()
    };
    let once = loader.load_from_env(KideConfig::default(), values()).unwrap();
    let twice = loader.load_from_env(once, values()).unwrap();
    assert_eq!(once, twice);
    assert_eq!(once.connection_timeout.as_secs(), 45);
    assert_eq!(once.max_fd_usage, 700);
    assert_eq!(loader.load_from_env(KideConfig::testing(), no_env()).unwrap(), KideConfig::testing());
}

#[test]
fn timeouts_can_hold_parts_of_a_second() {
    let d = Duration::from_millis(1500);
    assert_eq!(d.as_secs(), 1);
    assert_eq!(d.subsec_nanos(), 500_000_000);
    assert_eq!(Duration::from_secs(3).subsec_nanos(), 0);
    let config = KideConfig { connection_timeout: d, ..KideConfig::default() };
    let loader = ConfigLoader::new();
    let back = loader.load_from_file(Some((0, Ok(loader.file_text(&config))))).unwrap();
    assert_eq!(back.connection_timeout, Duration::from_secs(1));
}
