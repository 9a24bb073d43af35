use kide::commands::shell_commands::{
    attach_failed, route_shell_input, send_failed, shell_attach_plan, stop_pod_shell,
};
use kide::errors::ShellError;
use kide::security::ShellValidator;
use kide::shell_session::{validate_config, ShellSession, ShellSessionConfig, ShellSessionManager};
use kide::table::KeyedTable;

fn config(pod: &str, ns: &str) -> ShellSessionConfig {
    ShellSessionConfig { pod_name: pod.to_string(), namespace: ns.to_string(), ..Default::default() }
}

#[test]
fn test_shell_session_config_validation() {
    let valid_config = config("test-pod", "default");
    assert!(validate_config(&valid_config).is_ok());

    let invalid_config = config("", "default");
    assert!(validate_config(&invalid_config).is_err());
}

#[test]
fn config_problems_in_order() {
    match validate_config(&config("", "")) {
        Err(ShellError::ValidationFailed { field, message }) => {
            assert_eq!(field, "pod_name");
            assert_eq!(message, "Pod name cannot be empty");
        }
        _ => panic!("expected a validation error"),
    }
    match validate_config(&config("p", "")) {
        Err(ShellError::ValidationFailed { field, .. }) => assert_eq!(field, "namespace"),
        _ => panic!("expected a validation error"),
    }
    let c = ShellSessionConfig { shell_command: Some(String::new()), ..config("p", "n") };
    match validate_config(&c) {
        Err(ShellError::ValidationFailed { field, message }) => {
            assert_eq!(field, "shell_command");
            assert_eq!(message, "Shell command cannot be empty");
        }
        _ => panic!("expected a validation error"),
    }
    let d = ShellSessionConfig::default();
    assert_eq!((d.cols, d.rows, d.timeout_seconds), (80, 24, 300));
}

#[test]
fn test_shell_session_manager_limits() {
    let manager: ShellSessionManager<u32> = ShellSessionManager::new().with_max_sessions(2);

    assert_eq!(manager.session_count(), 0);
    assert_eq!(manager.max_session_count(), 2);
}

#[test]
fn session_limit_is_checked_first() {
    let mut manager: ShellSessionManager<u32> = ShellSessionManager::new().with_max_sessions(1);
    assert!(manager.check_new_session(&config("p", "n")).is_ok());
    manager.add_session(ShellSession::new("s1".to_string(), config("p", "n"), 1, 0));
    match manager.check_new_session(&config("", "")) {
        Err(ShellError::TooManySessions { current, max }) => assert_eq!((current, max), (1, 1)),
        _ => panic!("expected the limit"),
    }
}

#[test]
fn session_input_and_termination() {
    let mut manager: ShellSessionManager<u32> = ShellSessionManager::new();
    manager.add_session(ShellSession::new("s1".to_string(), config("p", "n"), 5, 1_000));
    assert!(manager.send_input("s1", 2_000).is_ok());
    match manager.send_input("nope", 0) {
        Err(ShellError::SessionNotFound { session_id }) => assert_eq!(session_id, "nope"),
        _ => panic!("expected not found"),
    }
    let s = manager.terminate_session("s1").unwrap();
    assert!(!s.is_active);
    assert_eq!(s.last_activity, 2_000);
    assert_eq!(s.handle, 5);
    assert!(manager.terminate_session("s1").is_err());
    assert_eq!(manager.session_count(), 0);
}

#[test]
fn closed_sessions_refuse_input() {
    let mut s = ShellSession::new("s".to_string(), config("p", "n"), 0u32, 0);
    s.terminate();
    match s.send_input(10) {
        Err(ShellError::SessionNotActive { session_id }) => assert_eq!(session_id, "s"),
        _ => panic!("expected not active"),
    }
    assert!(!s.is_session_active(false));
}

#[test]
fn session_timing() {
    let s = ShellSession::new("s".to_string(), config("p", "n"), 0u32, 1_000);
    assert_eq!(s.duration(61_000), 60_000);
    assert!(s.is_idle(1_000 + 1_800_001, 1_800_000));
    assert!(!s.is_idle(1_000 + 1_800_000, 1_800_000));
    assert!(s.is_session_active(false));
    assert!(!s.is_session_active(true));
}

#[test]
fn cleanup_picks_closed_finished_and_idle_sessions() {
    let mut manager: ShellSessionManager<u32> = ShellSessionManager::new().with_idle_timeout(100);
    manager.add_session(ShellSession::new("fresh".to_string(), config("p", "n"), 1, 950));
    manager.add_session(ShellSession::new("idle".to_string(), config("p", "n"), 2, 0));
    manager.add_session(ShellSession::new("done".to_string(), config("p", "n"), 3, 990));
    let mut ids = manager.sessions_to_clean(1_000, &vec!["done".to_string()]);
    ids.sort();
    assert_eq!(ids, vec!["done".to_string(), "idle".to_string()]);
    let all = manager.cleanup();
    assert_eq!(all.len(), 3);
    assert!(all.iter().all(|s| !s.is_active));
    assert_eq!(manager.session_count(), 0);
}

#[test]
fn attach_plan() {
    let v = ShellValidator::new();
    let p = shell_attach_plan(&v, Some("app".to_string()));
    assert!(p.stdin && p.stdout && p.tty && !p.stderr);
    assert_eq!(p.container.as_deref(), Some("app"));
    assert_eq!(p.command[0], "/bin/bash");
    assert_eq!(attach_failed("gone"), "Failed to attach to pod: gone");
    assert_eq!(send_failed("closed"), "Failed to send input: closed");
}

#[test]
fn shell_input_routing() {
    let v = ShellValidator::new();
    let mut sessions: KeyedTable<u32> = KeyedTable::new();
    sessions.insert("s1".to_string(), 7);
    let (h, text) = route_shell_input(&sessions, &v, "s1", "ls\u{1}").unwrap();
    assert_eq!(*h, 7);
    assert_eq!(text, "ls");
    assert_eq!(route_shell_input(&sessions, &v, "s2", "ls").unwrap_err(), "Session not found");
    assert_eq!(
        route_shell_input(&sessions, &v, "s1", "ls && rm").unwrap_err(),
        "Invalid shell input: Dangerous pattern detected: &&"
    );
    assert_eq!(stop_pod_shell(&mut sessions, "s1"), Ok(7));
    assert_eq!(stop_pod_shell(&mut sessions, "s1"), Err("Session not found".to_string()));
}

#[test]
fn listed_sessions_are_the_open_ones() {
    let mut manager: ShellSessionManager<u32> = ShellSessionManager::new();
    manager.add_session(ShellSession::new("a".to_string(), config("pa", "n1"), 1, 1_000));
    let mut closed = ShellSession::new("b".to_string(), config("pb", "n2"), 2, 1_000);
    closed.terminate();
    manager.add_session(closed);
    manager.add_session(ShellSession::new("c".to_string(), config("pc", "n3"), 3, 2_000));
    let list = manager.list_sessions(5_000, &vec!["c".to_string()]);
    assert_eq!(list.len(), 1);
    assert_eq!(list[0].id, "a");
    assert_eq!(list[0].pod_name, "pa");
    assert_eq!(list[0].namespace, "n1");
    assert_eq!(list[0].duration, 4_000);
    assert!(list[0].is_active);
}
