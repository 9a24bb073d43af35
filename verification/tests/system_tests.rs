use kide::commands::system_commands::{
    build_update_patch,
    check_update_request, events_selector, is_read_only_field, is_read_only_metadata_field, node_pods_selector,
    open_url_failed, sort_events_newest_first, update_namespace, validate_url, EventRow,
};
use kide::k8s::system_monitor::{current_fd_count, fd_limit_from_output, is_high_fd_usage, is_low_fd_limit};
use kide::security::InputSanitizer;

#[test]
fn urls_must_be_web_links() {
    assert!(validate_url("https://kubernetes.io").is_ok());
    assert!(validate_url("http://localhost:8080").is_ok());
    assert_eq!(
        validate_url("file:///etc/passwd").unwrap_err(),
        "Invalid URL: must start with http:// or https://"
    );
    assert!(validate_url("HTTP://x").is_err());
    assert_eq!(open_url_failed("no browser"), "Failed to open URL: no browser");
}

#[test]
fn update_requests_are_checked_in_order() {
    let s = InputSanitizer::new();
    assert!(check_update_request(&s, "web", Some("default"), "kind: Pod").is_ok());
    assert_eq!(
        check_update_request(&s, "Web", Some("Bad"), "").unwrap_err(),
        "Invalid resource name: Invalid format for resource name"
    );
    assert_eq!(
        check_update_request(&s, "web", Some("Bad"), "").unwrap_err(),
        "Invalid namespace: Invalid format for namespace"
    );
    assert_eq!(
        check_update_request(&s, "web", None, "").unwrap_err(),
        "Invalid YAML content: Empty input for YAML content"
    );
    assert_eq!(
        check_update_request(&s, "web", None, "a: [b").unwrap_err(),
        "Invalid YAML content: Invalid YAML content"
    );
}

#[test]
fn read_only_metadata() {
    for f in ["managedFields", "resourceVersion", "uid", "ownerReferences", "finalizers"] {
        assert!(is_read_only_metadata_field(f));
    }
    assert!(!is_read_only_metadata_field("labels"));
    assert!(!is_read_only_metadata_field("name"));
}

#[test]
fn only_pods_can_be_updated() {
    assert_eq!(update_namespace("Pod", Some("dev")).unwrap(), "dev");
    assert_eq!(update_namespace("Pod", None).unwrap_err(), "Namespace is required for Pod resources");
    assert_eq!(
        update_namespace("Deployment", Some("dev")).unwrap_err(),
        "Update operation not yet supported for resource kind: Deployment"
    );
}

#[test]
fn selectors() {
    assert_eq!(node_pods_selector("node-1"), "spec.nodeName=node-1");
    assert_eq!(events_selector("web", "Pod"), "involvedObject.name=web,involvedObject.kind=Pod");
}

fn event(uid: &str, first: Option<&str>, last: Option<&str>) -> EventRow {
    EventRow::new(
        Some(uid.to_string()),
        None,
        None,
        None,
        None,
        first.map(|s| s.to_string()),
        last.map(|s| s.to_string()),
        None,
    )
}

#[test]
fn events_newest_first() {
    let events = vec![
        event("a", Some("2024-01-01T00:00:00Z"), None),
        event("b", None, Some("2024-03-01T00:00:00Z")),
        event("c", None, None),
        event("d", Some("2024-02-01T00:00:00Z"), Some("2024-02-15T00:00:00Z")),
        event("e", Some("2024-01-01T00:00:00Z"), None),
    ];
    let sorted = sort_events_newest_first(events);
    let uids: Vec<&str> = sorted.iter().map(|e| e.uid.as_str()).collect();
    assert_eq!(uids, vec!["b", "d", "a", "e", "c"]);
}

#[test]
fn event_defaults() {
    let e = EventRow::new(None, None, None, None, None, None, None, None);
    assert_eq!(e.uid, "");
    assert_eq!(e.event_type, "");
    assert_eq!(e.count, 1);
    let e = EventRow::new(None, Some("Warning".to_string()), None, None, None, None, None, Some(4));
    assert_eq!(e.event_type, "Warning");
    assert_eq!(e.count, 4);
}

#[test]
fn file_descriptor_checks() {
    assert_eq!(fd_limit_from_output("  256\n"), Some(256));
    assert_eq!(fd_limit_from_output("unlimited\n"), None);
    assert_eq!(fd_limit_from_output("4294967296"), None);
    assert!(is_low_fd_limit(256));
    assert!(!is_low_fd_limit(1024));
    assert!(is_high_fd_usage(501));
    assert!(!is_high_fd_usage(500));
    assert_eq!(current_fd_count(&vec![None, Some(12)]), Some(12));
    assert_eq!(current_fd_count(&vec![Some(0), Some(9)]), Some(9));
    assert_eq!(current_fd_count(&vec![Some(3), Some(9)]), Some(3));
    assert_eq!(current_fd_count(&vec![None, None]), None);
}

#[test]
fn only_the_status_is_dropped_at_the_top_level() {
    assert!(is_read_only_field("status"));
    assert!(!is_read_only_field("spec"));
    assert!(!is_read_only_field("metadata"));
    assert!(!is_read_only_field("Status"));
}

#[test]
fn events_of_the_same_time_keep_their_order() {
    let events = vec![
        event("first", None, Some("2024-03-01T00:00:00Z")),
        event("newest", None, Some("2024-04-01T00:00:00Z")),
        event("second", Some("2024-03-01T00:00:00Z"), None),
        event("third", None, Some("2024-03-01T00:00:00Z")),
        event("untimed", None, None),
    ];
    let sorted = sort_events_newest_first(events);
    let uids: Vec<&str> = sorted.iter().map(|e| e.uid.as_str()).collect();
    assert_eq!(uids, vec!["newest", "first", "second", "third", "untimed"]);
}

#[test]
fn update_patches_drop_the_fields_the_cluster_manages() {
    let yaml = "apiVersion: v1\nkind: Pod\nmetadata:\n  name: web\n  uid: abc\n  resourceVersion: \"7\"\n  labels:\n    app: web\n  managedFields: []\nspec:\n  containers: []\nstatus:\n  phase: Running\n";
    let patch = build_update_patch("Pod", Some("dev"), yaml).unwrap();
    assert_eq!(patch.namespace, "dev");
    let top: Vec<&String> = patch.body.as_object().unwrap().keys().collect();
    assert!(top.iter().any(|k| k.as_str() == "spec"));
    assert!(top.iter().any(|k| k.as_str() == "metadata"));
    assert!(!top.iter().any(|k| k.as_str() == "status"));
    let meta: Vec<&String> = patch.body["metadata"].as_object().unwrap().keys().collect();
    let mut meta: Vec<&str> = meta.iter().map(|k| k.as_str()).collect();
    meta.sort();
    assert_eq!(meta, vec!["labels", "name"]);
}

#[test]
fn update_patches_report_each_failure() {
    let bad = build_update_patch("Pod", Some("dev"), "a: [1, 2").unwrap_err();
    assert!(bad.starts_with("Invalid YAML: "));
    assert_eq!(
        build_update_patch("Deployment", Some("dev"), "a: 1").unwrap_err(),
        "Update operation not yet supported for resource kind: Deployment"
    );
    assert_eq!(
        build_update_patch("Pod", None, "a: 1").unwrap_err(),
        "Namespace is required for Pod resources"
    );
    let scalar = build_update_patch("Pod", Some("dev"), "just text").unwrap();
    assert_eq!(scalar.body, serde_json::Value::String("just text".to_string()));
}

#[test]
fn fd_limits_are_read_after_unicode_whitespace() {
    assert_eq!(fd_limit_from_output("\u{3000}2048\u{2003}\r\n"), Some(2048));
    assert_eq!(fd_limit_from_output("\t\u{85}1024\u{a0}"), Some(1024));
    assert_eq!(fd_limit_from_output("1 024"), None);
    assert_eq!(fd_limit_from_output("   "), None);
}
