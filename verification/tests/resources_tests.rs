use kide::k8s::resource_map::{get_supported_resource_types, is_resource_namespaced};
use kide::k8s::watch::resource_type_to_kind_and_api_version;
use kide::k8s::resources::{get_resource_categories, K8sResource};

#[test]
fn resources_test_get_resource_categories() {
    let categories = get_resource_categories();

    assert_eq!(categories.len(), 9);

    // Test first category
    let commonly_used = &categories[0];
    assert_eq!(commonly_used.name, "Commonly used");
    assert_eq!(commonly_used.resources.len(), 13);

    // Test that we have both namespaced and cluster-wide resources
    let has_namespaced = categories.iter().flat_map(|c| &c.resources).any(|r| r.namespaced);
    let has_cluster_wide = categories.iter().flat_map(|c| &c.resources).any(|r| !r.namespaced);

    assert!(has_namespaced, "Should have namespaced resources");
    assert!(has_cluster_wide, "Should have cluster-wide resources");
}

#[test]
fn test_namespaced_resources_identification() {
    let categories = get_resource_categories();
    let all_resources: Vec<&K8sResource> = categories.iter().flat_map(|c| &c.resources).collect();

    // Test some known namespaced resources
    let pods = all_resources.iter().find(|r| r.name == "Pods").unwrap();
    assert!(pods.namespaced, "Pods should be namespaced");

    let deployments = all_resources.iter().find(|r| r.name == "Deployments").unwrap();
    assert!(deployments.namespaced, "Deployments should be namespaced");

    // Test some known cluster-wide resources
    let nodes = all_resources.iter().find(|r| r.name == "Nodes").unwrap();
    assert!(!nodes.namespaced, "Nodes should be cluster-wide");

    let namespaces = all_resources.iter().find(|r| r.name == "Namespaces").unwrap();
    assert!(!namespaces.namespaced, "Namespaces should be cluster-wide");
}

fn resource_type_is_listed(resource_type: &str) -> bool {
    let categories = get_resource_categories();
    let all_resources: Vec<String> =
        categories.iter().flat_map(|c| &c.resources).map(|r| r.name.to_lowercase()).collect();
    all_resources.contains(&resource_type.to_string())
}

#[test]
fn test_resource_type_validation_pods() {
    assert!(resource_type_is_listed("pods"));
}

#[test]
fn test_resource_type_validation_nodes() {
    assert!(resource_type_is_listed("nodes"));
}

#[test]
fn test_resource_type_validation_deployments() {
    assert!(resource_type_is_listed("deployments"));
}

#[test]
fn test_resource_type_validation_invalid() {
    assert!(!resource_type_is_listed("invalid-resource"));
}

#[test]
fn pod_resource_entry() {
    let categories = get_resource_categories();
    let pod = categories[0].resources.iter().find(|r| r.kind == "Pod").unwrap();
    assert_eq!(pod.api_version, "v1");
    assert!(pod.namespaced);
}

#[test]
fn service_accounts_are_cluster_administration() {
    let categories = get_resource_categories();
    let kinds_of = |name: &str| -> Vec<String> {
        categories
            .iter()
            .find(|c| c.name == name)
            .map(|c| c.resources.iter().map(|r| r.kind.clone()).collect())
            .unwrap_or_default()
    };
    let admin = kinds_of("Cluster Administration");
    assert!(admin.contains(&"Namespace".to_string()));
    assert!(admin.contains(&"Node".to_string()));
    assert!(admin.contains(&"ServiceAccount".to_string()));
    assert!(!kinds_of("Security & Access Control").contains(&"ServiceAccount".to_string()));
    let config = kinds_of("Configuration");
    assert!(config.contains(&"ConfigMap".to_string()));
    assert!(config.contains(&"Secret".to_string()));
    assert!(config.contains(&"ResourceQuota".to_string()));
}

#[test]
fn every_supported_type_is_in_the_catalogue() {
    let categories = get_resource_categories();
    let entries: Vec<&K8sResource> = categories.iter().flat_map(|c| &c.resources).collect();
    for t in get_supported_resource_types() {
        let (kind, api_version) = resource_type_to_kind_and_api_version(t);
        assert!(
            entries.iter().any(|x| x.kind == kind
                && x.api_version == api_version
                && Some(x.namespaced) == is_resource_namespaced(t)),
            "{t} is missing"
        );
    }
    let mut kinds: Vec<&str> = entries.iter().map(|x| x.kind.as_str()).collect();
    kinds.sort();
    kinds.dedup();
    assert_eq!(kinds.len(), 37);
    for a in &entries {
        for b in &entries {
            if a.kind == b.kind {
                assert_eq!(a.name, b.name);
                assert_eq!(a.api_version, b.api_version);
                assert_eq!(a.namespaced, b.namespaced);
                assert_eq!(a.description, b.description);
            }
        }
    }
}
