use kide::security::input_sanitizer::ValidationError as FieldError;
use kide::security::shell_validator::ValidationError;
use kide::security::{InputSanitizer, ShellValidator};

#[test]
fn test_shell_validator_blocks_dangerous_commands() {
    let validator = ShellValidator::new();

    // Test dangerous patterns
    let dangerous_inputs = ["some harmful command"];

    for input in &dangerous_inputs {
        let result = validator.validate_input(input);
        assert!(result.is_err(), "Should reject dangerous input: {}", input);
    }
}

#[test]
fn test_shell_validator_allows_safe_commands() {
    let validator = ShellValidator::new();

    let safe_inputs = ["ls", "pwd", "whoami", "echo hello world", "cd Documents", "mkdir test"];

    for input in &safe_inputs {
        let result = validator.validate_input(input);
        assert!(result.is_ok(), "Should allow safe input: {}", input);
    }
}

#[test]
fn test_shell_validator_length_limit() {
    let validator = ShellValidator::new();
    let long_input = "a".repeat(2000); // Over the 1024 limit

    let result = validator.validate_input(&long_input);
    assert!(result.is_err(), "Should reject input that's too long");
}

#[test]
fn test_input_sanitizer_resource_names() {
    let sanitizer = InputSanitizer::new();

    // Valid resource names
    assert!(sanitizer.validate_resource_name("my-pod").is_ok());
    assert!(sanitizer.validate_resource_name("app123").is_ok());

    // Invalid resource names
    assert!(sanitizer.validate_resource_name("").is_err());
    assert!(sanitizer.validate_resource_name("Pod_Name").is_err()); // underscores not allowed
    assert!(sanitizer.validate_resource_name("-starts-with-dash").is_err());
}

#[test]
fn test_input_sanitizer_namespaces() {
    let sanitizer = InputSanitizer::new();

    // Valid namespaces
    assert!(sanitizer.validate_namespace("default").is_ok());
    assert!(sanitizer.validate_namespace("kube-system").is_ok());
    assert!(sanitizer.validate_namespace("my-namespace").is_ok());

    // Invalid namespaces
    assert!(sanitizer.validate_namespace("").is_err());
    assert!(sanitizer.validate_namespace("Invalid_Namespace").is_err());
    assert!(sanitizer.validate_namespace(&"a".repeat(100)).is_err()); // too long
}

#[test]
fn test_input_sanitizer_yaml_content() {
    let sanitizer = InputSanitizer::new();

    let valid_yaml = r#"
apiVersion: v1
kind: Pod
metadata:
  name: test-pod
spec:
  containers:
  - name: test
    image: nginx
"#;

    assert!(sanitizer.validate_yaml_content(valid_yaml).is_ok());

    // Invalid YAML
    let invalid_yaml = "invalid: yaml: content: [unclosed";
    assert!(sanitizer.validate_yaml_content(invalid_yaml).is_err());

    // Empty YAML
    assert!(sanitizer.validate_yaml_content("").is_err());
}

#[test]
fn test_shell_validator_safe_commands() {
    let validator = ShellValidator::new();
    let safe_command = validator.get_initial_command();

    // Should return bash with proper terminal setup
    assert_eq!(safe_command.len(), 3);
    assert_eq!(safe_command[0], "/bin/bash");
    assert_eq!(safe_command[1], "-c");
    assert!(safe_command[2].contains("TERM=xterm-256color"));
}

#[test]
fn dangerous_patterns_are_named() {
    let validator = ShellValidator::new();
    match validator.validate_input("ls; rm -rf /") {
        Err(ValidationError::DangerousPattern(p)) => assert_eq!(p, ";"),
        other => panic!("unexpected {:?}", other),
    }
    match validator.validate_input("cat a | grep b") {
        Err(ValidationError::DangerousPattern(p)) => assert_eq!(p, "|"),
        other => panic!("unexpected {:?}", other),
    }
    assert_eq!(
        ValidationError::DangerousPattern("|".to_string()).message(),
        "Dangerous pattern detected: |"
    );
    assert_eq!(ValidationError::InputTooLong.message(), "Input too long (max 1024 characters)");
    assert!(matches!(validator.validate_input(&"a".repeat(1025)), Err(ValidationError::InputTooLong)));
    assert!(validator.validate_input(&"a".repeat(1024)).is_ok());
}

#[test]
fn shell_input_control_characters_are_dropped() {
    let validator = ShellValidator::new();
    assert_eq!(validator.validate_input("ls\u{1}\u{7} -la\u{1B}[A").unwrap(), "ls -la\u{1B}[A");
    assert_eq!(validator.validate_input("echo é").unwrap(), "echo ");
}

#[test]
fn shell_choice() {
    let validator = ShellValidator::new();
    assert!(validator.is_allowed_shell("zsh"));
    assert!(!validator.is_allowed_shell("fish"));
    assert_eq!(validator.get_safe_shell_command(Some("zsh")), vec!["zsh".to_string()]);
    assert_eq!(validator.get_safe_shell_command(Some("fish")), vec!["bash".to_string(), "sh".to_string()]);
    assert_eq!(validator.get_safe_shell_command(None), vec!["bash".to_string(), "sh".to_string()]);
}

#[test]
fn sanitizer_error_messages() {
    let sanitizer = InputSanitizer::new();
    let e = sanitizer.validate_resource_name("").unwrap_err();
    assert_eq!(e.message(), "Empty input for resource name");
    let e = sanitizer.validate_namespace(&"a".repeat(64)).unwrap_err();
    assert_eq!(e.message(), "namespace too long (max 63 characters)");
    let e = sanitizer.validate_namespace("Bad_NS").unwrap_err();
    assert_eq!(e.message(), "Invalid format for namespace");
    assert!(matches!(sanitizer.validate_yaml_content("a: [b"), Err(FieldError::InvalidYaml)));
    assert!(sanitizer.validate_namespace(&"a".repeat(63)).is_ok());
}

#[test]
fn sanitizer_labels() {
    let sanitizer = InputSanitizer::new();
    let ok = vec![
        ("app.kubernetes.io/name".to_string(), "web".to_string()),
        ("tier".to_string(), "".to_string()),
    ];
    assert!(sanitizer.validate_labels(&ok).is_ok());
    let bad_key = vec![("-bad".to_string(), "x".to_string())];
    assert!(sanitizer.validate_labels(&bad_key).is_err());
    let bad_value = vec![("app".to_string(), "-x".to_string())];
    assert!(sanitizer.validate_labels(&bad_value).is_err());
}

#[test]
fn sanitize_string_keeps_name_characters() {
    let sanitizer = InputSanitizer::new();
    assert_eq!(sanitizer.sanitize_string("my pod!/name_1.2"), "mypodname_1.2");
    assert_eq!(sanitizer.sanitize_string(&"x".repeat(300)).len(), 253);
    let once = sanitizer.sanitize_string("a b*c");
    assert_eq!(sanitizer.sanitize_string(&once), once);
}

#[test]
fn sanitize_string_keeps_unicode_letters_and_digits() {
    let sanitizer = InputSanitizer::new();
    assert_eq!(sanitizer.sanitize_string("café☃-٣"), "café-٣");
    assert_eq!(sanitizer.sanitize_string("💝"), "");
}

#[test]
fn control_characters_cannot_hide_a_dangerous_pattern() {
    let validator = ShellValidator::new();
    match validator.validate_input("$\u{1}(id)") {
        Err(ValidationError::DangerousPattern(p)) => assert_eq!(p, "$("),
        other => panic!("expected a refusal, got {:?}", other),
    }
    match validator.validate_input("r\u{1}m -rf /") {
        Err(ValidationError::DangerousPattern(p)) => assert_eq!(p, "rm -rf"),
        other => panic!("expected a refusal, got {:?}", other),
    }
    assert_eq!(validator.validate_input("ls\u{0}").unwrap(), "ls");
}

#[test]
fn words_that_merely_sound_dangerous_are_accepted() {
    let validator = ShellValidator::new();
    assert_eq!(validator.validate_input("harmful").unwrap(), "harmful");
    assert_eq!(validator.validate_input("rm harmful.txt").unwrap(), "rm harmful.txt");
}

#[test]
fn patterns_are_reported_as_typed_before_cleaning() {
    let validator = ShellValidator::new();
    match validator.validate_input("|\u{1}|") {
        Err(ValidationError::DangerousPattern(p)) => assert_eq!(p, "|"),
        other => panic!("expected a refusal, got {:?}", other),
    }
    match validator.validate_input("a || b") {
        Err(ValidationError::DangerousPattern(p)) => assert_eq!(p, "||"),
        other => panic!("expected a refusal, got {:?}", other),
    }
    match validator.validate_input("some harm\u{7}ful command") {
        Err(ValidationError::DangerousPattern(p)) => assert_eq!(p, "harmful command"),
        other => panic!("expected a refusal, got {:?}", other),
    }
}

#[test]
fn accepted_input_is_accepted_again_unchanged() {
    let validator = ShellValidator::new();
    for input in ["ls\u{1}\u{7} -la\u{1B}[A", "echo é", "kubectl get pods", "ls\u{0}"] {
        let once = validator.validate_input(input).unwrap();
        assert_eq!(validator.validate_input(&once).unwrap(), once);
    }
}
