use kide::errors::{ConfigError, K8sError, StateError};
use kide::k8s::resource_registry::{GenericResourceHandler, ResourceMetadata, ResourceRegistry};
use std::time::Instant;

#[test]
fn test_resource_registry_creation() {
    let registry = ResourceRegistry::new();
    assert_eq!(registry.list_resource_types().len(), 0);
}

#[test]
fn test_resource_metadata() {
    let metadata = ResourceMetadata {
        kind: "Pod".to_string(),
        api_version: "v1".to_string(),
        is_namespaced: true,
        category: "Workloads".to_string(),
        short_names: vec!["po".to_string()],
        scalable: false,
        watchable: true,
    };

    assert_eq!(metadata.kind, "Pod");
    assert!(metadata.is_namespaced);
    assert!(!metadata.scalable);
    assert!(metadata.watchable);
}

#[test]
fn test_global_registry() {
    let registry = ResourceRegistry::with_core_resources();
    let resource_types = registry.list_resource_types();
    assert!(!resource_types.is_empty());
    assert!(resource_types.contains(&"pods".to_string()));
    assert!(resource_types.contains(&"deployments".to_string()));
}

#[test]
fn test_resources_by_category() {
    let registry = ResourceRegistry::with_core_resources();
    let categories = registry.get_resources_by_category();
    assert!(categories.contains_key("Workloads"));
    assert!(categories.contains_key("Services and Discovery"));
    assert!(categories.contains_key("Cluster"));

    let workloads = categories.get("Workloads").unwrap();
    assert!(workloads.iter().any(|r| r.kind == "Pod"));
    assert!(workloads.iter().any(|r| r.kind == "Deployment"));
}

#[test]
fn test_invalid_resource_type() {
    let registry = ResourceRegistry::with_core_resources();
    let result = registry.get_handler("invalid-resource");
    assert!(result.is_err());

    if let Err(K8sError::InvalidResourceType { resource_type }) = result {
        assert_eq!(resource_type, "invalid-resource");
    } else {
        panic!("Expected InvalidResourceType error");
    }
}

#[test]
fn test_resource_registry_integration() {
    let registry = ResourceRegistry::with_core_resources();

    // Should have core resources registered
    assert!(registry.is_registered("pods"));
    assert!(registry.is_registered("deployments"));
    assert!(registry.is_registered("services"));
    assert!(!registry.is_registered("invalid-resource"));

    // Test handler retrieval
    let pod_handler = registry.get_handler("pods");
    assert!(pod_handler.is_ok());

    let handler = pod_handler.unwrap();
    let metadata = handler.metadata();
    assert_eq!(metadata.kind, "Pod");
    assert_eq!(metadata.api_version, "v1");
    assert!(metadata.is_namespaced);
    assert!(!metadata.scalable);
}

#[test]
fn test_resource_categories_integration() {
    let registry = ResourceRegistry::with_core_resources();
    let categories = registry.get_resources_by_category();

    // Should have expected categories
    assert!(categories.contains_key("Workloads"));
    assert!(categories.contains_key("Services and Discovery"));
    assert!(categories.contains_key("Cluster"));

    // Workloads should contain expected resources
    let workloads = categories.get("Workloads").unwrap();
    let workload_kinds: Vec<String> = workloads.iter().map(|r| r.kind.clone()).collect();
    assert!(workload_kinds.contains(&"Pod".to_string()));
    assert!(workload_kinds.contains(&"Deployment".to_string()));
}

#[test]
fn test_performance_improvements() {
    let registry = ResourceRegistry::with_core_resources();
    let start = Instant::now();

    // Perform many lookups
    for _ in 0..10000 {
        let _ = registry.is_registered("pods");
        let _ = registry.is_registered("deployments");
        let _ = registry.is_registered("services");
        let _ = registry.is_registered("invalid");
    }

    let duration = start.elapsed();

    assert!(duration.as_millis() < 50, "Resource lookups should be fast, took {:?}", duration);
}

#[test]
fn test_type_safety_improvements() {
    let _connection_error = K8sError::connection_failed("test message");
    let _resource_error = K8sError::resource_not_found("Pod", "test-pod", Some("default".to_string()));
    let _watch_error = K8sError::watch_failed("pods", "test failure");

    let _config_error = ConfigError::validation_failed("test_field", "test message");
    let _state_error = StateError::manager_not_initialized("WatchManager");
}

#[test]
fn error_constructors_keep_their_texts() {
    match K8sError::resource_not_found("Pod", "test-pod", Some("default".to_string())) {
        K8sError::ResourceNotFound { resource_type, name, namespace } => {
            assert_eq!(resource_type, "Pod");
            assert_eq!(name, "test-pod");
            assert_eq!(namespace.as_deref(), Some("default"));
        }
        _ => panic!("expected ResourceNotFound"),
    }
    match StateError::initialization_failed("managers", "boom") {
        StateError::InitializationFailed { step, message } => {
            assert_eq!(step, "managers");
            assert_eq!(message, "boom");
        }
        _ => panic!("expected InitializationFailed"),
    }
}

#[test]
fn registering_replaces_a_handler() {
    let mut registry = ResourceRegistry::new();
    let meta = |kind: &str| ResourceMetadata {
        kind: kind.to_string(),
        api_version: "v1".to_string(),
        is_namespaced: true,
        category: "Workloads".to_string(),
        short_names: vec![],
        scalable: false,
        watchable: true,
    };
    registry.register("widgets".to_string(), GenericResourceHandler::new(meta("Widget")));
    registry.register("widgets".to_string(), GenericResourceHandler::new(meta("Gadget")));
    assert_eq!(registry.list_resource_types(), vec!["widgets".to_string()]);
    assert_eq!(registry.get_handler("widgets").unwrap().metadata().kind, "Gadget");
    assert_eq!(registry.get_all_metadata().len(), 1);
}

#[test]
fn default_registry_is_empty() {
    let registry = ResourceRegistry::default();
    assert!(registry.list_resource_types().is_empty());
    assert!(!registry.is_registered("pods"));
}
