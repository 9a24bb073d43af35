use kide::errors::K8sError;
use kide::k8s::errors::K8sWatchError;
use kide::k8s::list_item::{
    endpoint_subsets, list_item_detail, ListItemDetail, RawEndpointAddress, RawEndpointPort,
    RawEndpointSubset,
};
use kide::table::KeyedTable;
use kide::k8s::watch::{
    admit_watch, plan_scoped_watch, plan_watch, resource_type_to_kind_and_api_version, watch_key,
    watch_step, StreamEvent, WatchEmission, WatchTarget,
};
use kide::k8s::watch_components::{
    validate_watch_request, watch_statistics, GenericResourceWatcher, WatchId,
    WatchLifecycleManager, WatchStart, WatchStatus,
};

#[test]
fn test_resource_type_to_kind_and_api_version() {
    // Test workloads
    assert_eq!(resource_type_to_kind_and_api_version("deployments"), ("Deployment", "apps/v1"));
    assert_eq!(resource_type_to_kind_and_api_version("pods"), ("Pod", "v1"));
    assert_eq!(resource_type_to_kind_and_api_version("statefulsets"), ("StatefulSet", "apps/v1"));

    // Test services
    assert_eq!(resource_type_to_kind_and_api_version("services"), ("Service", "v1"));
    assert_eq!(resource_type_to_kind_and_api_version("ingresses"), ("Ingress", "networking.k8s.io/v1"));
    assert_eq!(
        resource_type_to_kind_and_api_version("ingressclasses"),
        ("IngressClass", "networking.k8s.io/v1")
    );

    // Test storage
    assert_eq!(resource_type_to_kind_and_api_version("csidrivers"), ("CSIDriver", "storage.k8s.io/v1"));
    assert_eq!(resource_type_to_kind_and_api_version("csinodes"), ("CSINode", "storage.k8s.io/v1"));

    // Test cluster administration
    assert_eq!(resource_type_to_kind_and_api_version("runtimeclasses"), ("RuntimeClass", "node.k8s.io/v1"));

    // Test security
    assert_eq!(
        resource_type_to_kind_and_api_version("certificatesigningrequests"),
        ("CertificateSigningRequest", "certificates.k8s.io/v1")
    );

    // Test configuration
    assert_eq!(resource_type_to_kind_and_api_version("configmaps"), ("ConfigMap", "v1"));
    assert_eq!(resource_type_to_kind_and_api_version("secrets"), ("Secret", "v1"));

    // Test unknown resource type (fallback)
    assert_eq!(resource_type_to_kind_and_api_version("unknown"), ("unknown", "v1"));
}

#[test]
fn test_resource_type_matching() {
    let supported_types = vec![
        "pods", "deployments", "services", "configmaps", "secrets",
        "namespaces", "nodes", "statefulsets", "daemonsets", "jobs",
        "cronjobs", "ingresses", "serviceaccounts", "networkpolicies",
        "persistentvolumes", "persistentvolumeclaims", "storageclasses",
    ];

    for resource_type in supported_types {
        assert!(!resource_type.is_empty());
        assert!(resource_type.chars().all(|c| c.is_lowercase() || c.is_ascii_digit()));
        assert!(plan_watch(resource_type, None).is_some());
    }
}

#[test]
fn test_watch_id_creation() {
    let id1 = WatchId::new("pods".to_string(), None);
    assert_eq!(id1.to_key(), "pods:all");

    let id2 = WatchId::new(
        "deployments".to_string(),
        Some(vec!["default".to_string(), "kube-system".to_string()]),
    );
    assert_eq!(id2.to_key(), "deployments:default,kube-system");

    // Test namespace sorting
    let id3 = WatchId::new(
        "services".to_string(),
        Some(vec!["kube-system".to_string(), "default".to_string()]),
    );
    assert_eq!(id3.to_key(), "services:default,kube-system"); // Should be sorted
}

#[test]
fn test_generic_resource_watcher() {
    let watcher = GenericResourceWatcher::new();

    assert!(watcher.can_watch("pods"));
    assert!(watcher.can_watch("deployments"));
    assert!(!watcher.can_watch("invalid-resource"));
    assert_eq!(watcher.resource_type(), "*");
}

#[test]
fn test_watch_key_generation() {
    assert_eq!(watch_key("pods", Some(vec!["default".to_string()])), "pods:default");
    assert_eq!(watch_key("nodes", None), "nodes:all");
    assert_eq!(watch_key("nodes", Some(vec![])), "nodes:all");
}

#[test]
fn watch_keys_ignore_namespace_order() {
    let a = watch_key("pods", Some(vec!["b".to_string(), "a".to_string(), "c".to_string()]));
    let b = watch_key("pods", Some(vec!["c".to_string(), "b".to_string(), "a".to_string()]));
    assert_eq!(a, b);
    assert_eq!(a, "pods:a,b,c");
}

#[test]
fn watch_plans() {
    assert!(matches!(plan_watch("nodes", Some(vec!["default".to_string()])), Some(WatchTarget::AllNamespaces)));
    assert!(matches!(plan_watch("pods", None), Some(WatchTarget::AllNamespaces)));
    match plan_watch("pods", Some(vec!["default".to_string()])) {
        Some(WatchTarget::Namespace(ns)) => assert_eq!(ns, "default"),
        _ => panic!("expected one namespace"),
    }
    match plan_watch("pods", Some(vec!["a".to_string(), "b".to_string()])) {
        Some(WatchTarget::Namespaces(ns)) => assert_eq!(ns, vec!["a".to_string(), "b".to_string()]),
        _ => panic!("expected several namespaces"),
    }
    assert!(plan_watch("widgets", None).is_none());
    assert_eq!(plan_scoped_watch("pods", Some("dev".to_string())), Ok(Some("dev".to_string())));
    assert_eq!(plan_scoped_watch("nodes", Some("dev".to_string())), Ok(None));
    assert_eq!(plan_scoped_watch("widgets", None), Err(()));
}

#[test]
fn optimized_watch_admission() {
    let mut active: KeyedTable<u32> = KeyedTable::new();
    let key = admit_watch(&active, "pods", Some(vec!["default".to_string()])).unwrap().unwrap();
    assert_eq!(key, "pods:default");
    active.insert(key, 1);
    assert!(matches!(admit_watch(&active, "pods", Some(vec!["default".to_string()])), Ok(None)));
    assert_eq!(active.len(), 1);
    match admit_watch(&active, "widgets", None) {
        Err(K8sWatchError::UnsupportedResourceType { resource_type }) => assert_eq!(resource_type, "widgets"),
        _ => panic!("expected an unsupported type"),
    }
}

#[test]
fn watch_steps() {
    let s = watch_step(StreamEvent::Apply { converted: true });
    assert_eq!(s.emission, Some(WatchEmission::Added));
    assert!(s.keep_watching);
    let s = watch_step(StreamEvent::InitApply { converted: false });
    assert_eq!(s.emission, None);
    assert!(s.keep_watching);
    let s = watch_step(StreamEvent::Delete { converted: true });
    assert_eq!(s.emission, Some(WatchEmission::Deleted));
    assert!(watch_step(StreamEvent::Init).keep_watching);
    assert!(watch_step(StreamEvent::InitDone).keep_watching);
    assert!(!watch_step(StreamEvent::Error).keep_watching);
    assert!(!watch_step(StreamEvent::Ended).keep_watching);
    assert!(!watch_step(StreamEvent::TimedOut).keep_watching);
}

#[test]
fn test_watch_lifecycle_manager() {
    let manager: WatchLifecycleManager<u32> = WatchLifecycleManager::new();
    assert_eq!(manager.active_watch_count(), 0);
    let watches = manager.get_active_watches();
    assert!(watches.is_empty());
}

#[test]
fn lifecycle_manager_starts_and_stops_watches() {
    let mut manager: WatchLifecycleManager<u32> = WatchLifecycleManager::new();
    let id = match manager.start_watch("pods".to_string(), Some(vec!["b".to_string(), "a".to_string()])) {
        Ok(WatchStart::Start(id)) => id,
        _ => panic!("expected a new watch"),
    };
    assert_eq!(id.to_key(), "pods:a,b");
    manager.record_watch(id, 9, 1_000);
    assert_eq!(manager.active_watch_count(), 1);
    assert!(matches!(
        manager.start_watch("pods".to_string(), Some(vec!["a".to_string(), "b".to_string()])),
        Ok(WatchStart::AlreadyActive)
    ));
    match manager.start_watch("widgets".to_string(), None) {
        Err(K8sError::InvalidResourceType { resource_type }) => assert_eq!(resource_type, "widgets"),
        _ => panic!("expected an invalid type"),
    }
    let watches = manager.get_active_watches();
    assert_eq!(watches.len(), 1);
    assert_eq!(watches[0].1, WatchStatus::Active);
    let s = manager.stop_watch("pods".to_string(), Some(vec!["b".to_string(), "a".to_string()])).unwrap();
    assert_eq!(s.status, WatchStatus::Stopping);
    assert_eq!(s.handle, 9);
    assert!(manager.stop_watch("pods".to_string(), None).is_none());
    assert_eq!(manager.active_watch_count(), 0);
}

#[test]
fn lifecycle_manager_stop_all() {
    let mut manager: WatchLifecycleManager<u32> = WatchLifecycleManager::new();
    manager.record_watch(WatchId::new("pods".to_string(), None), 1, 0);
    manager.record_watch(WatchId::new("nodes".to_string(), None), 2, 0);
    let all = manager.stop_all_watches();
    assert_eq!(all.len(), 2);
    assert!(all.iter().all(|s| s.status == WatchStatus::Stopping));
    assert_eq!(manager.active_watch_count(), 0);
}

#[test]
fn watch_statistics_count_by_status_and_type() {
    let watches = vec![
        (WatchId::new("pods".to_string(), None), WatchStatus::Active),
        (WatchId::new("pods".to_string(), Some(vec!["a".to_string()])), WatchStatus::Failed("x".to_string())),
        (WatchId::new("nodes".to_string(), None), WatchStatus::Active),
    ];
    let stats = watch_statistics(&watches);
    assert_eq!(stats.total_watches, 3);
    assert_eq!(stats.by_status.get("active"), Some(&2));
    assert_eq!(stats.by_status.get("failed"), Some(&1));
    assert_eq!(stats.by_resource_type.get("pods"), Some(&2));
    assert_eq!(stats.by_resource_type.get("nodes"), Some(&1));
    assert_eq!(watch_statistics(&vec![]).total_watches, 0);
}

#[test]
fn watch_requests_need_registered_types() {
    assert!(validate_watch_request("pods").is_ok());
    assert!(matches!(
        validate_watch_request("widgets"),
        Err(K8sError::InvalidResourceType { ref resource_type }) if resource_type == "widgets"
    ));
}

#[test]
fn list_item_details() {
    assert_eq!(list_item_detail("pods"), ListItemDetail::Pod);
    assert_eq!(list_item_detail("clusterroles"), ListItemDetail::RoleRules);
    assert_eq!(list_item_detail("rolebindings"), ListItemDetail::RoleBindingSubjects);
    assert_eq!(list_item_detail("configmaps"), ListItemDetail::ConfigMapData);
    assert_eq!(list_item_detail("endpoints"), ListItemDetail::EndpointSubsets);
    assert_eq!(list_item_detail("widgets"), ListItemDetail::Nothing);
}

#[test]
fn endpoint_subsets_keep_addresses_with_ips_and_ports_with_numbers() {
    let raw = vec![RawEndpointSubset {
        addresses: Some(vec![
            RawEndpointAddress { ip: Some("10.0.0.1".to_string()) },
            RawEndpointAddress { ip: None },
        ]),
        not_ready_addresses: None,
        ports: Some(vec![
            RawEndpointPort { port: Some(8080), name: Some("http".to_string()), protocol: Some("TCP".to_string()) },
            RawEndpointPort { port: None, name: Some("broken".to_string()), protocol: None },
            RawEndpointPort { port: Some(4_294_967_297), name: None, protocol: None },
        ]),
    }];
    let subsets = endpoint_subsets(Some(raw)).unwrap();
    assert_eq!(subsets.len(), 1);
    let s = &subsets[0];
    let addrs = s.addresses.as_ref().unwrap();
    assert_eq!(addrs.len(), 1);
    assert_eq!(addrs[0].ip, "10.0.0.1");
    assert!(s.not_ready_addresses.is_none());
    let ports = s.ports.as_ref().unwrap();
    assert_eq!(ports.len(), 2);
    assert_eq!(ports[0].port, 8080);
    assert_eq!(ports[0].name.as_deref(), Some("http"));
    assert_eq!(ports[1].port, 1);
    assert!(endpoint_subsets(Some(vec![])).is_none());
    assert!(endpoint_subsets(None).is_none());
}

#[test]
fn finished_watches_are_forgotten() {
    let mut manager: WatchLifecycleManager<u32> = WatchLifecycleManager::new();
    manager.record_watch(WatchId::new("pods".to_string(), None), 1, 0);
    manager.record_watch(WatchId::new("nodes".to_string(), None), 2, 0);
    assert_eq!(manager.forget_finished(&vec!["pods:all".to_string(), "jobs:all".to_string()]), 1);
    assert_eq!(manager.active_watch_count(), 1);
    assert_eq!(manager.forget_finished(&vec![]), 0);
}

#[test]
fn stopping_with_namespaces_in_another_order_undoes_starting() {
    let mut manager: WatchLifecycleManager<u32> = WatchLifecycleManager::new();
    manager.record_watch(WatchId::new("nodes".to_string(), None), 1, 0);
    let id = match manager.start_watch("pods".to_string(), Some(vec!["kube-system".to_string(), "default".to_string()])) {
        Ok(WatchStart::Start(id)) => id,
        _ => panic!("expected a new watch"),
    };
    manager.record_watch(id, 7, 5);
    assert_eq!(manager.active_watch_count(), 2);
    let s = manager
        .stop_watch("pods".to_string(), Some(vec!["default".to_string(), "kube-system".to_string()]))
        .unwrap();
    assert_eq!(s.handle, 7);
    assert_eq!(manager.active_watch_count(), 1);
    let left = manager.get_active_watches();
    assert_eq!(left[0].0.resource_type, "nodes");
}

#[test]
fn default_lifecycle_manager_has_no_watches() {
    let manager: WatchLifecycleManager<u8> = WatchLifecycleManager::default();
    assert_eq!(manager.active_watch_count(), 0);
    assert!(matches!(manager.start_watch("pods".to_string(), None), Ok(WatchStart::Start(_))));
}
