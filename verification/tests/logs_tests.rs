use kide::k8s::logs::{
    fetch_log_request, fetch_logs_failed,
    log_request, log_start_error, log_stream_id, log_stream_step, LogEmission, LogStartFailure,
    LogStreamEvent, LogStreamManager, LogStreamStart, LOG_TAIL_LINES,
};

#[test]
fn test_stream_id_generation() {
    let namespace = "default";
    let pod_name = "test-pod";
    let container_name = Some("nginx".to_string());

    let stream_id = log_stream_id(namespace, pod_name, container_name.as_deref());

    assert_eq!(stream_id, "default:test-pod:nginx");
}

#[test]
fn test_stream_id_without_container() {
    let namespace = "kube-system";
    let pod_name = "coredns";
    let container_name: Option<String> = None;

    let stream_id = log_stream_id(namespace, pod_name, container_name.as_deref());

    assert_eq!(stream_id, "kube-system:coredns:default");
}

#[test]
fn log_stream_manager_starts_empty() {
    let manager: LogStreamManager<u32> = LogStreamManager::new();
    assert_eq!(manager.stream_count(), 0);
}

#[test]
fn log_stream_is_reused_when_running() {
    let mut manager: LogStreamManager<u32> = LogStreamManager::new();
    let id = match manager.start_log_stream("default", "web", Some("nginx")) {
        LogStreamStart::Start(id) => id,
        LogStreamStart::AlreadyRunning(_) => panic!("nothing runs yet"),
    };
    assert_eq!(id, "default:web:nginx");
    manager.register_stream(id, 7);
    match manager.start_log_stream("default", "web", Some("nginx")) {
        LogStreamStart::AlreadyRunning(id) => assert_eq!(id, "default:web:nginx"),
        LogStreamStart::Start(_) => panic!("the stream runs already"),
    }
    assert_eq!(manager.stop_log_stream("default:web:nginx"), Some(7));
    assert_eq!(manager.stop_log_stream("default:web:nginx"), None);
    assert_eq!(manager.stream_count(), 0);
}

#[test]
fn log_stream_stop_all_hands_back_every_task() {
    let mut manager: LogStreamManager<u32> = LogStreamManager::new();
    manager.register_stream("a:b:c".to_string(), 1);
    manager.register_stream("a:b:d".to_string(), 2);
    let mut handles = manager.stop_all_streams();
    handles.sort();
    assert_eq!(handles, vec![1, 2]);
    assert_eq!(manager.stream_count(), 0);
}

#[test]
fn log_request_follows_with_timestamps() {
    let r = log_request(Some("sidecar".to_string()));
    assert!(r.follow);
    assert!(r.timestamps);
    assert_eq!(r.container.as_deref(), Some("sidecar"));
    assert_eq!(r.tail_lines, 50);
    assert_eq!(LOG_TAIL_LINES, 50);
    assert_eq!(log_request(None).container, None);
}

#[test]
fn log_stream_steps() {
    let s = log_stream_step(LogStreamEvent::Line("hello".to_string()));
    assert!(s.keep_reading);
    assert!(matches!(s.emission, Some(LogEmission::Line(ref l)) if l == "hello"));

    let s = log_stream_step(LogStreamEvent::ReadFailed("broken pipe".to_string()));
    assert!(!s.keep_reading);
    assert!(matches!(s.emission, Some(LogEmission::Error(ref m)) if m == "Stream error: broken pipe"));

    let s = log_stream_step(LogStreamEvent::Ended);
    assert!(!s.keep_reading);
    assert!(s.emission.is_none());

    let s = log_stream_step(LogStreamEvent::TimedOut);
    assert!(!s.keep_reading);
    assert!(matches!(s.emission, Some(LogEmission::Error(ref m)) if m == "Log stream timeout"));
}

#[test]
fn log_start_errors() {
    assert_eq!(
        log_start_error(LogStartFailure::Refused("forbidden".to_string())),
        "Failed to start log stream: forbidden"
    );
    assert_eq!(log_start_error(LogStartFailure::TimedOut), "Log stream connection timeout");
}

#[test]
fn one_off_log_reads() {
    let r = fetch_log_request(Some("app".to_string()), Some(100));
    assert!(!r.follow);
    assert!(r.timestamps);
    assert_eq!(r.container.as_deref(), Some("app"));
    assert_eq!(r.tail_lines, Some(100));
    assert_eq!(fetch_log_request(None, None).tail_lines, None);
    assert_eq!(fetch_logs_failed("gone"), "Failed to fetch logs: gone");
}

#[test]
fn running_streams_are_listed_with_their_tasks() {
    let mut manager: LogStreamManager<u32> = LogStreamManager::new();
    assert!(manager.stream_ids().is_empty());
    manager.register_stream("ns:web:app".to_string(), 4);
    manager.register_stream("ns:db:default".to_string(), 9);
    let mut ids = manager.stream_ids();
    ids.sort();
    assert_eq!(ids, vec!["ns:db:default".to_string(), "ns:web:app".to_string()]);
    assert_eq!(manager.stream_task("ns:web:app"), Some(&4));
    assert_eq!(manager.stream_task("ns:other:app"), None);
    manager.stop_log_stream("ns:web:app");
    assert_eq!(manager.stream_ids(), vec!["ns:db:default".to_string()]);
}

#[test]
fn finished_streams_are_forgotten() {
    let mut manager: LogStreamManager<u32> = LogStreamManager::new();
    manager.register_stream("ns:a:default".to_string(), 1);
    manager.register_stream("ns:b:default".to_string(), 2);
    let finished = vec!["ns:a:default".to_string(), "ns:zzz:default".to_string()];
    assert_eq!(manager.forget_finished(&finished), 1);
    assert_eq!(manager.stream_ids(), vec!["ns:b:default".to_string()]);
    assert_eq!(manager.forget_finished(&finished), 0);
}
