use kide::k8s::resource_map::{
    get_resource_config, get_resources_by_category, get_supported_resource_types,
    is_resource_namespaced,
};

#[test]
fn test_resource_config_lookup() {
    // Test namespaced resources
    assert_eq!(is_resource_namespaced("pods"), Some(true));
    assert_eq!(is_resource_namespaced("deployments"), Some(true));
    assert_eq!(is_resource_namespaced("services"), Some(true));

    // Test cluster-wide resources
    assert_eq!(is_resource_namespaced("nodes"), Some(false));
    assert_eq!(is_resource_namespaced("namespaces"), Some(false));
    assert_eq!(is_resource_namespaced("persistentvolumes"), Some(false));

    // Test unsupported resource
    assert_eq!(is_resource_namespaced("nonexistent"), None);
}

#[test]
fn test_resource_categories() {
    let workload_resources = get_resources_by_category("Workloads");
    assert!(workload_resources.contains(&"pods"));
    assert!(workload_resources.contains(&"deployments"));
    assert!(!workload_resources.is_empty());

    let storage_resources = get_resources_by_category("Storage");
    assert!(storage_resources.contains(&"persistentvolumes"));
    assert!(storage_resources.contains(&"persistentvolumeclaims"));
}

#[test]
fn test_supported_resource_types() {
    let supported = get_supported_resource_types();
    assert!(supported.len() >= 25); // Should have at least 25 resource types
    assert!(supported.contains(&"pods"));
    assert!(supported.contains(&"nodes"));
    assert!(supported.contains(&"deployments"));
}

#[test]
fn test_resource_config_details() {
    let pod_config = get_resource_config("pods").unwrap();
    assert_eq!(pod_config.is_namespaced, true);
    assert_eq!(pod_config.category, "Workloads");

    let node_config = get_resource_config("nodes").unwrap();
    assert_eq!(node_config.is_namespaced, false);
    assert_eq!(node_config.category, "Cluster Administration");
}

#[test]
fn unknown_category_has_no_types() {
    assert!(get_resources_by_category("Nonexistent").is_empty());
    assert!(get_resource_config("widgets").is_none());
}

#[test]
fn every_category_type_is_supported() {
    let supported = get_supported_resource_types();
    for t in get_resources_by_category("Workloads") {
        assert!(supported.contains(&t));
    }
    for t in supported {
        assert!(is_resource_namespaced(t).is_some());
    }
}

#[test]
fn categories_split_the_supported_types() {
    let names = [
        "Workloads",
        "Services & Networking",
        "Configuration",
        "Storage",
        "Cluster Administration",
        "Security & Access Control",
        "Scaling",
        "Custom Resources",
    ];
    let mut all: Vec<&str> = Vec::new();
    for c in names {
        let listed = get_resources_by_category(c);
        let mut unique = listed.clone();
        unique.sort();
        unique.dedup();
        assert_eq!(unique.len(), listed.len(), "duplicates in {c}");
        for t in &listed {
            assert_eq!(get_resource_config(t).unwrap().category, c);
        }
        all.extend(listed);
    }
    let mut supported = get_supported_resource_types();
    supported.sort();
    all.sort();
    assert_eq!(all, supported);
    assert!(get_resources_by_category("workloads").is_empty());
    assert!(get_resources_by_category("Unknown").is_empty());
}
