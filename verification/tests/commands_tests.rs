use kide::commands::k8s_commands::{
    managers_failed, ConnectK8sCommand, ConnectK8sWithContextCommand, GetCurrentK8sContextCommand,
    GetK8sContextsCommand, GetNamespacesCommand,
};
use kide::commands::resource_commands::{
    DeleteResourceCommand, GetResourceCategoriesCommand, GetResourceCommand, GetResourceInfoCommand,
    ListResourcesCommand, ToggleCronJobSuspendCommand, TriggerCronJobCommand,
};
use kide::errors::{AppError, K8sError, StateError};
use kide::k8s::resource_registry::ResourceRegistry;
use kide::table::KeyedTable;

#[test]
fn test_get_namespaces_command() {
    let command = GetNamespacesCommand;
    let validation_result = command.validate();
    assert!(validation_result.is_ok());
}

#[test]
fn namespace_names_skip_unnamed() {
    let names = GetNamespacesCommand.namespace_names(vec![
        Some("default".to_string()),
        None,
        Some("kube-system".to_string()),
    ]);
    assert_eq!(names, vec!["default".to_string(), "kube-system".to_string()]);
    match GetNamespacesCommand.list_failed("timeout") {
        K8sError::ApiError { message } => assert_eq!(message, "Failed to list namespaces: timeout"),
        _ => panic!("expected an API error"),
    }
}

#[test]
fn connection_errors() {
    match (ConnectK8sWithContextCommand { context_name: "prod".to_string() }).connect_failed("no route".to_string()) {
        AppError::Kubernetes(K8sError::ContextSwitchFailed { context, message }) => {
            assert_eq!(context, "prod");
            assert_eq!(message, "no route");
        }
        _ => panic!("expected a context switch failure"),
    }
    assert!(matches!(
        ConnectK8sCommand.connect_failed("x".to_string()),
        AppError::Kubernetes(K8sError::ConnectionFailed { .. })
    ));
    match managers_failed("boom".to_string()) {
        AppError::State(StateError::InitializationFailed { step, message }) => {
            assert_eq!(step, "manager_initialization");
            assert_eq!(message, "boom");
        }
        _ => panic!("expected an initialization failure"),
    }
    match GetK8sContextsCommand.read_failed("missing") {
        AppError::Kubernetes(K8sError::ApiError { message }) => assert_eq!(message, "Failed to get contexts: missing"),
        _ => panic!("expected an API error"),
    }
    match GetCurrentK8sContextCommand.read_failed("missing") {
        AppError::Kubernetes(K8sError::ApiError { message }) => {
            assert_eq!(message, "Failed to get current context: missing")
        }
        _ => panic!("expected an API error"),
    }
}

#[test]
fn test_get_resource_categories() {
    let command = GetResourceCategoriesCommand;
    let registry = ResourceRegistry::with_core_resources();

    let result = command.execute(&registry);
    assert!(result.is_ok());

    let categories = result.unwrap();
    assert!(!categories.is_empty());

    let category_names: Vec<String> = categories.iter().map(|c| c.name.clone()).collect();
    assert!(category_names.contains(&"Workloads".to_string()));
    assert!(category_names.contains(&"Cluster".to_string()));
}

#[test]
fn categories_are_sorted_by_name() {
    let categories = GetResourceCategoriesCommand.execute(&ResourceRegistry::with_core_resources()).unwrap();
    let names: Vec<String> = categories.iter().map(|c| c.name.clone()).collect();
    let mut sorted = names.clone();
    sorted.sort();
    assert_eq!(names, sorted);
    let workloads = categories.iter().find(|c| c.name == "Workloads").expect("Should have Workloads category");
    let pod = workloads.resources.iter().find(|r| r.kind == "Pod").expect("Should have Pod resource");
    assert_eq!(pod.name, "Pod");
    assert_eq!(pod.api_version, "v1");
    assert!(pod.namespaced);
}

#[test]
fn test_get_resource_info() {
    let command = GetResourceInfoCommand { resource_type: "pods".to_string() };
    let registry = ResourceRegistry::with_core_resources();

    let result = command.execute(&registry);
    assert!(result.is_ok());

    let info = result.unwrap();
    assert_eq!(info.kind, "Pod");
    assert_eq!(info.api_version, "v1");
    assert!(info.namespaced);
    assert!(!info.scalable);
    assert!(info.watchable);
}

#[test]
fn test_get_invalid_resource_info() {
    let command = GetResourceInfoCommand { resource_type: "invalid-resource".to_string() };
    let registry = ResourceRegistry::with_core_resources();

    let result = command.execute(&registry);
    assert!(result.is_err());
}

#[test]
fn test_list_resources_validation() {
    let registry = ResourceRegistry::with_core_resources();
    let command = ListResourcesCommand {
        resource_type: "invalid-resource".to_string(),
        namespace: None,
        label_selector: None,
    };

    let result = command.validate(&registry);
    assert!(result.is_err());

    if let Err(K8sError::InvalidResourceType { resource_type }) = result {
        assert_eq!(resource_type, "invalid-resource");
    } else {
        panic!("Expected InvalidResourceType error");
    }
}

#[test]
fn test_get_resource_validation() {
    let registry = ResourceRegistry::with_core_resources();
    let command = GetResourceCommand {
        resource_type: "pods".to_string(),
        name: "test-pod".to_string(),
        namespace: None,
    };

    let result = command.validate(&registry);
    assert!(result.is_err());

    if let Err(K8sError::ValidationFailed { message }) = result {
        assert!(message.contains("Namespace required"));
        assert_eq!(message, "Namespace required for namespaced resource 'pods'");
    } else {
        panic!("Expected ValidationFailed error");
    }
}

#[test]
fn test_delete_resource_validation() {
    let registry = ResourceRegistry::with_core_resources();
    let command = DeleteResourceCommand {
        resource_type: "pods".to_string(),
        name: "test-pod".to_string(),
        namespace: Some("default".to_string()),
    };

    let result = command.validate(&registry);
    assert!(result.is_ok());

    let command = DeleteResourceCommand {
        resource_type: "nodes".to_string(),
        name: "test-node".to_string(),
        namespace: None,
    };

    let result = command.validate(&registry);
    assert!(result.is_ok());
}

#[test]
fn test_command_validation_integration() {
    let registry = ResourceRegistry::with_core_resources();
    let valid_command = ListResourcesCommand {
        resource_type: "pods".to_string(),
        namespace: Some("default".to_string()),
        label_selector: None,
    };
    assert!(valid_command.validate(&registry).is_ok());

    let invalid_command = ListResourcesCommand {
        resource_type: "invalid-resource".to_string(),
        namespace: None,
        label_selector: None,
    };
    assert!(invalid_command.validate(&registry).is_err());

    let missing_namespace_command = GetResourceCommand {
        resource_type: "pods".to_string(),
        name: "test-pod".to_string(),
        namespace: None,
    };
    assert!(missing_namespace_command.validate(&registry).is_err());

    let cluster_command = GetResourceCommand {
        resource_type: "nodes".to_string(),
        name: "test-node".to_string(),
        namespace: None,
    };
    assert!(cluster_command.validate(&registry).is_ok());
}

#[test]
fn cronjob_commands_need_a_namespace() {
    let toggle = ToggleCronJobSuspendCommand { name: "nightly".to_string(), namespace: None, suspend: true };
    match toggle.validate() {
        Err(K8sError::ValidationFailed { message }) => assert_eq!(message, "Namespace required for CronJob"),
        _ => panic!("expected a validation error"),
    }
    let toggle = ToggleCronJobSuspendCommand { name: "nightly".to_string(), namespace: Some("ops".to_string()), suspend: false };
    assert!(toggle.validate().is_ok());
    match toggle.patch_failed("conflict") {
        K8sError::ApiError { message } => assert_eq!(message, "Failed to update CronJob suspend state: conflict"),
        _ => panic!("expected an API error"),
    }
    assert!(TriggerCronJobCommand { name: "n".to_string(), namespace: None }.validate().is_err());
}

#[test]
fn manual_job_plan() {
    let cmd = TriggerCronJobCommand { name: "nightly".to_string(), namespace: Some("ops".to_string()) };
    let mut labels: KeyedTable<String> = KeyedTable::new();
    labels.insert("team".to_string(), "data".to_string());
    labels.insert("cronjob".to_string(), "old".to_string());
    let plan = cmd.plan_job(1_700_000_000, true, Some(labels), None, Some("uid-1".to_string())).unwrap();
    assert_eq!(plan.name, "nightly-manual-1700000000");
    assert_eq!(plan.namespace, "ops");
    assert_eq!(plan.labels.get("team").map(|s| s.as_str()), Some("data"));
    assert_eq!(plan.labels.get("cronjob").map(|s| s.as_str()), Some("nightly"));
    assert_eq!(plan.labels.get("triggered-by").map(|s| s.as_str()), Some("manual"));
    assert_eq!(plan.labels.len(), 3);
    assert_eq!(plan.backoff_limit, Some(3));
    let owners = plan.owner_references.unwrap();
    assert_eq!(owners.len(), 1);
    assert_eq!(owners[0].kind, "CronJob");
    assert_eq!(owners[0].api_version, "batch/v1");
    assert_eq!(owners[0].uid, "uid-1");
    assert_eq!(owners[0].controller, Some(false));
    assert_eq!(owners[0].block_owner_deletion, Some(false));

    let plan = cmd.plan_job(0, true, None, Some(7), None).unwrap();
    assert_eq!(plan.name, "nightly-manual-0");
    assert_eq!(plan.backoff_limit, Some(7));
    assert!(plan.owner_references.is_none());
    assert_eq!(plan.labels.len(), 2);

    match cmd.plan_job(0, false, None, None, None) {
        Err(K8sError::ValidationFailed { message }) => assert_eq!(message, "CronJob has no spec"),
        _ => panic!("expected a validation error"),
    }
    match cmd.fetch_failed("not found") {
        K8sError::ApiError { message } => assert_eq!(message, "Failed to get CronJob nightly: not found"),
        _ => panic!("expected an API error"),
    }
    match cmd.create_failed("denied") {
        K8sError::ApiError { message } => assert_eq!(message, "Failed to create Job from CronJob nightly: denied"),
        _ => panic!("expected an API error"),
    }
}
