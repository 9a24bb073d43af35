use kide::error_text::to_tauri_result;
use kide::errors::{AppError, ConfigError, K8sError, ShellError, StateError, SystemError};

#[test]
fn error_texts_name_their_parts() {
    assert_eq!(
        ConfigError::validation_failed("test_field", "test message").to_string(),
        "Configuration validation failed: test_field - test message"
    );
    assert_eq!(
        StateError::manager_not_initialized("WatchManager").to_string(),
        "Manager not initialized: WatchManager"
    );
    assert_eq!(
        ShellError::session_not_found("s-1").to_string(),
        "Session not found: s-1"
    );
    assert_eq!(
        ShellError::TooManySessions { current: 12, max: 10 }.to_string(),
        "Too many sessions: 12/10"
    );
    assert_eq!(
        SystemError::FdLimitExceeded { current: 900, limit: 800 }.to_string(),
        "File descriptor limit exceeded: current=900, limit=800"
    );
}

#[test]
fn error_texts_show_optional_and_listed_values_in_debug_form() {
    let found = K8sError::ResourceNotFound {
        resource_type: "pods".to_string(),
        name: "web".to_string(),
        namespace: Some("default".to_string()),
    };
    assert_eq!(found.to_string(), "Resource not found: pods/web in namespace Some(\"default\")");
    let cluster = K8sError::ResourceNotFound {
        resource_type: "nodes".to_string(),
        name: "n1".to_string(),
        namespace: None,
    };
    assert_eq!(cluster.to_string(), "Resource not found: nodes/n1 in namespace None");
    let missing = ConfigError::NotFound { paths: vec!["kide.toml".to_string(), "a\"b".to_string()] };
    assert_eq!(
        missing.to_string(),
        "Configuration file not found in any of: [\"kide.toml\", \"a\\\"b\"]"
    );
    assert_eq!(
        ConfigError::NotFound { paths: vec![] }.to_string(),
        "Configuration file not found in any of: []"
    );
}

#[test]
fn application_errors_prefix_their_area() {
    assert_eq!(
        AppError::Config(ConfigError::missing_required("max_fd_usage")).to_string(),
        "Configuration error: Missing required configuration: max_fd_usage"
    );
    assert_eq!(
        AppError::System(SystemError::ResourceUnavailable {
            resource: "watches".to_string(),
            message: "Cleanup errors: x".to_string(),
        })
        .to_string(),
        "System error: System resource unavailable: watches - Cleanup errors: x"
    );
    let io = AppError::Io(std::io::Error::new(std::io::ErrorKind::Other, "disk gone"));
    assert_eq!(io.to_string(), "I/O error: disk gone");
}

#[test]
fn test_command_error_conversion() {
    let k8s_error = K8sError::ConnectionFailed { message: "test error".to_string() };
    let app_error = AppError::Kubernetes(k8s_error);
    let string_error = app_error.to_string();

    assert!(string_error.contains("Kubernetes error"));
    assert!(string_error.contains("test error"));
}

#[test]
fn test_error_conversion_integration() {
    let k8s_error = K8sError::ResourceNotFound {
        resource_type: "Pod".to_string(),
        name: "test-pod".to_string(),
        namespace: Some("default".to_string()),
    };

    let app_error = AppError::Kubernetes(k8s_error);
    let string_result = to_tauri_result::<()>(Err(app_error));

    assert!(string_result.is_err());
    let error_message = string_result.unwrap_err();
    assert!(error_message.contains("Pod"));
    assert!(error_message.contains("test-pod"));
    assert!(error_message.contains("default"));
    assert_eq!(to_tauri_result::<u32>(Ok(7)), Ok(7));
}
