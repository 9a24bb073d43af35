use kide::cleanup::{cleanup_failure, Cleanup, ResourceCollection, TaskManager};
use std::cell::RefCell;
use std::rc::Rc;

/// A part that records its cleanups and fails when told to.
#[derive(Debug, Clone, PartialEq)]
struct Probe {
    name: &'static str,
    fail: Option<&'static str>,
    log: Rc<RefCell<Vec<&'static str>>>,
}

impl Cleanup for Probe {
    fn cleanup_fails(&self) -> bool {
        self.fail.is_some()
    }

    fn is_cleaned_up(&self) -> bool {
        self.log.borrow().contains(&self.name)
    }

    fn component_name(&self) -> &str {
        self.name
    }

    fn cleanup(&mut self) -> Result<(), AppError> {
        self.log.borrow_mut().push(self.name);
        match self.fail {
            Some(m) => Err(AppError::System(SystemError::ResourceUnavailable {
                resource: self.name.to_string(),
                message: m.to_string(),
            })),
            None => Ok(()),
        }
    }
}

fn probe(log: &Rc<RefCell<Vec<&'static str>>>, name: &'static str, fail: Option<&'static str>) -> Probe {
    Probe { name, fail, log: log.clone() }
}
use kide::environment::{
    fallback_path, inherited_variables, is_inherited_var, login_shell, parse_shell_env,
    shell_env_args, shell_failed,
};
use kide::errors::{AppError, SystemError};

#[test]
fn shell_choice_and_arguments() {
    assert_eq!(login_shell(None), "/bin/bash");
    assert_eq!(login_shell(Some("/bin/zsh".to_string())), "/bin/zsh");
    assert_eq!(shell_env_args("/bin/zsh"), vec!["-l", "-i", "-c", "env"]);
    assert_eq!(shell_env_args("/usr/local/bin/bash"), vec!["-l", "-i", "-c", "env"]);
    assert_eq!(shell_env_args("/usr/bin/fish"), vec!["-c", "env"]);
    assert_eq!(shell_failed("oops"), "Shell command failed: oops");
}

#[test]
fn env_output_is_parsed() {
    let out = "PATH=/usr/bin:/bin\nHOME=/home/me\r\nBAD-NAME=x\nno equals here\nEQ=a=b\n\nLAST=1";
    let vars = parse_shell_env(out);
    assert_eq!(vars.get("PATH").map(|s| s.as_str()), Some("/usr/bin:/bin"));
    assert_eq!(vars.get("HOME").map(|s| s.as_str()), Some("/home/me"));
    assert_eq!(vars.get("EQ").map(|s| s.as_str()), Some("a=b"));
    assert_eq!(vars.get("LAST").map(|s| s.as_str()), Some("1"));
    assert!(!vars.contains_key("BAD-NAME"));
    assert_eq!(vars.len(), 4);
}

#[test]
fn env_output_later_lines_win_and_carriage_returns_stay_at_end() {
    let vars = parse_shell_env("A=1\nA=2\nB=x\r");
    assert_eq!(vars.get("A").map(|s| s.as_str()), Some("2"));
    assert_eq!(vars.get("B").map(|s| s.as_str()), Some("x\r"));
    assert_eq!(parse_shell_env("").len(), 0);
    assert_eq!(parse_shell_env("ÄÖ_1=unicode").get("ÄÖ_1").map(|s| s.as_str()), Some("unicode"));
}

#[test]
fn inherited_variables_are_selected() {
    assert!(is_inherited_var("PATH"));
    assert!(is_inherited_var("AWS_SESSION_TOKEN"));
    assert!(is_inherited_var("KUBECTL_EXTERNAL_DIFF"));
    assert!(is_inherited_var("AZURE_TENANT"));
    assert!(!is_inherited_var("EDITOR"));
    let vars = parse_shell_env("EDITOR=vim\nPATH=/bin\nGOOGLE_CLOUD_PROJECT=p\n");
    let mut inherited = inherited_variables(&vars);
    inherited.sort();
    assert_eq!(
        inherited,
        vec![
            ("GOOGLE_CLOUD_PROJECT".to_string(), "p".to_string()),
            ("PATH".to_string(), "/bin".to_string()),
        ]
    );
}

#[test]
fn fallback_search_path() {
    let p = fallback_path("/usr/bin:/bin", Some("/home/me"));
    assert_eq!(
        p,
        "/usr/local/bin:/opt/homebrew/bin:/usr/local/aws-cli/v2/current/bin:/snap/bin:/usr/local/google-cloud-sdk/bin:/home/me/.local/bin:/usr/bin:/bin"
    );
    let p = fallback_path("", None);
    assert_eq!(
        p,
        "/usr/local/bin:/opt/homebrew/bin:/usr/bin:/bin:/usr/local/aws-cli/v2/current/bin:/snap/bin:/usr/local/google-cloud-sdk/bin"
    );
}

#[test]
fn task_manager_tracks_tasks() {
    let log = Rc::new(RefCell::new(Vec::new()));
    let mut tasks: TaskManager<Probe> = TaskManager::new("shell_sessions");
    assert_eq!(tasks.component_name(), "shell_sessions");
    tasks.spawn_task("a".to_string(), probe(&log, "a", None));
    tasks.spawn_task("b".to_string(), probe(&log, "b", None));
    tasks.spawn_task("c".to_string(), probe(&log, "c", None));
    assert_eq!(tasks.task_count(), 3);
    assert_eq!(tasks.stop_task("b").map(|p| p.name), Some("b"));
    assert!(tasks.stop_task("b").is_none());
    assert_eq!(tasks.clean_finished_tasks(&vec!["c".to_string(), "zzz".to_string(), "c".to_string()]), 1);
    assert_eq!(tasks.task_count(), 1);
    assert!(!tasks.is_cleaned_up());
    assert!(tasks.cleanup().is_ok());
    assert_eq!(*log.borrow(), vec!["a"]);
    assert_eq!(tasks.task_count(), 0);
    assert!(tasks.is_cleaned_up());
}

#[test]
fn task_cleanup_stops_every_task_and_reports_the_failures() {
    let log = Rc::new(RefCell::new(Vec::new()));
    let mut tasks: TaskManager<Probe> = TaskManager::new("app_tasks");
    tasks.spawn_task("watch".to_string(), probe(&log, "watch", Some("stuck")));
    tasks.spawn_task("logs".to_string(), probe(&log, "logs", None));
    match tasks.cleanup() {
        Err(AppError::System(SystemError::ResourceUnavailable { resource, message })) => {
            assert_eq!(resource, "app_tasks");
            assert_eq!(
                message,
                "Task cleanup errors: Task 'watch': System error: System resource unavailable: watch - stuck"
            );
        }
        other => panic!("unexpected {:?}", other),
    }
    let mut called = log.borrow().clone();
    called.sort();
    assert_eq!(called, vec!["logs", "watch"]);
    assert!(tasks.is_cleaned_up());
    let mut empty: TaskManager<Probe> = TaskManager::new("none");
    assert!(empty.cleanup().is_ok());
}

#[test]
fn cleanup_failures_are_reported_together() {
    assert!(cleanup_failure("tasks", "Task cleanup errors", "Task", &vec![]).is_none());
    let failures = vec![
        ("a".to_string(), "timeout".to_string()),
        ("b".to_string(), "gone".to_string()),
    ];
    match cleanup_failure("tasks", "Task cleanup errors", "Task", &failures) {
        Some(AppError::System(SystemError::ResourceUnavailable { resource, message })) => {
            assert_eq!(resource, "tasks");
            assert_eq!(message, "Task cleanup errors: Task 'a': timeout; Task 'b': gone");
        }
        _ => panic!("expected an error"),
    }
}

#[test]
fn active_tasks_leave_out_the_finished_ones() {
    let log = Rc::new(RefCell::new(Vec::new()));
    let mut tasks: TaskManager<Probe> = TaskManager::new("app_tasks");
    tasks.spawn_task("watch".to_string(), probe(&log, "watch", None));
    tasks.spawn_task("logs".to_string(), probe(&log, "logs", None));
    tasks.spawn_task("shell".to_string(), probe(&log, "shell", None));
    let finished = vec!["logs".to_string(), "gone".to_string()];
    let mut active = tasks.active_task_ids(&finished);
    active.sort();
    assert_eq!(active, vec!["shell".to_string(), "watch".to_string()]);
    assert_eq!(tasks.active_task_count(&finished), 2);
    assert_eq!(tasks.active_task_count(&Vec::new()), 3);
    assert!(tasks.cleanup().is_ok());
    let mut called = log.borrow().clone();
    called.sort();
    assert_eq!(called, vec!["logs", "shell", "watch"]);
}

#[test]
fn resource_collection_keeps_and_cleans_up_resources() {
    let log = Rc::new(RefCell::new(Vec::new()));
    let mut resources: ResourceCollection<Probe> = ResourceCollection::new("sessions");
    assert_eq!(resources.component_name(), "sessions");
    assert_eq!(resources.resource_count(), 0);
    resources.add_resource("a".to_string(), probe(&log, "first", None));
    resources.add_resource("b".to_string(), probe(&log, "second", None));
    resources.add_resource("a".to_string(), probe(&log, "replaced", Some("busy")));
    resources.add_resource("c".to_string(), probe(&log, "third", Some("gone")));
    assert_eq!(resources.resource_count(), 3);
    let mut ids = resources.resource_ids();
    ids.sort();
    assert_eq!(ids, vec!["a".to_string(), "b".to_string(), "c".to_string()]);
    assert_eq!(resources.remove_resource("b").map(|p| p.name), Some("second"));
    assert!(resources.remove_resource("b").is_none());
    assert!(!resources.is_cleaned_up());
    match resources.cleanup() {
        Err(AppError::System(SystemError::ResourceUnavailable { resource, message })) => {
            assert_eq!(resource, "sessions");
            assert!(message.starts_with("Cleanup errors: "));
            assert!(message.contains("Resource 'a': System error: System resource unavailable: replaced - busy"));
            assert!(message.contains("Resource 'c': System error: System resource unavailable: third - gone"));
        }
        other => panic!("unexpected {:?}", other),
    }
    let mut called = log.borrow().clone();
    called.sort();
    assert_eq!(called, vec!["replaced", "third"]);
    assert!(resources.is_cleaned_up());
    assert_eq!(resources.resource_count(), 0);
}

#[test]
fn test_resource_collection() {
    let log = Rc::new(RefCell::new(Vec::new()));
    let mut collection: ResourceCollection<Probe> = ResourceCollection::new("test_collection");
    collection.add_resource("resource1".to_string(), probe(&log, "resource1", None));
    collection.add_resource("resource2".to_string(), probe(&log, "resource2", None));
    assert_eq!(collection.resource_count(), 2);
    collection.cleanup().unwrap();
    assert!(collection.is_cleaned_up());
    assert_eq!(collection.resource_count(), 0);
}

#[test]
fn collections_clean_up_as_parts_of_larger_ones() {
    let log = Rc::new(RefCell::new(Vec::new()));
    let mut inner: ResourceCollection<Probe> = ResourceCollection::new("inner");
    inner.add_resource("x".to_string(), probe(&log, "x", Some("stuck")));
    let mut outer: ResourceCollection<ResourceCollection<Probe>> = ResourceCollection::new("outer");
    outer.add_resource("inner".to_string(), inner);
    match outer.cleanup() {
        Err(AppError::System(SystemError::ResourceUnavailable { resource, message })) => {
            assert_eq!(resource, "outer");
            assert_eq!(
                message,
                "Cleanup errors: Resource 'inner': System error: System resource unavailable: inner - \
                 Cleanup errors: Resource 'x': System error: System resource unavailable: x - stuck"
            );
        }
        other => panic!("unexpected {:?}", other),
    }
    assert_eq!(*log.borrow(), vec!["x"]);
    assert_eq!(Cleanup::component_name(&outer), "outer");
    assert!(Cleanup::is_cleaned_up(&outer));
}
