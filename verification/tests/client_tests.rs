use kide::k8s::client::{
    context_override, contexts_from, current_context_name, kubeconfig_error, not_connected_error,
    ContextEntry,
};
use kide::k8s::resource_api::{
    handle_resource_by_kind, handle_resource_operation, parse_api_kind, ApiKind, ResourceAction,
    ResourceOperation, ResourceParams,
};

#[test]
fn contexts_are_listed() {
    let contexts = contexts_from(vec![
        (
            "prod".to_string(),
            Some(ContextEntry { cluster: "c1".to_string(), user: Some("admin".to_string()), namespace: Some("ops".to_string()) }),
        ),
        ("broken".to_string(), None),
        ("dev".to_string(), Some(ContextEntry { cluster: "c2".to_string(), user: None, namespace: None })),
    ]);
    assert_eq!(contexts.len(), 2);
    assert_eq!(contexts[0].name, "prod");
    assert_eq!(contexts[0].user, "admin");
    assert_eq!(contexts[0].namespace.as_deref(), Some("ops"));
    assert_eq!(contexts[1].name, "dev");
    assert_eq!(contexts[1].cluster, "c2");
    assert_eq!(contexts[1].user, "unknown");
}

#[test]
fn current_context_and_errors() {
    assert_eq!(current_context_name(None), "default");
    assert_eq!(current_context_name(Some("prod".to_string())), "prod");
    assert_eq!(context_override(""), None);
    assert_eq!(context_override("prod"), Some("prod".to_string()));
    assert_eq!(kubeconfig_error("no file"), "Failed to read or parse kubeconfig: no file");
    assert!(not_connected_error().contains("not initialized"));
}

#[test]
fn resource_kinds() {
    assert_eq!(parse_api_kind("Deployment"), Ok(ApiKind::Deployment));
    assert_eq!(parse_api_kind("Widget"), Err("Unsupported resource kind: Widget".to_string()));
    assert!(ApiKind::Pod.is_namespaced());
    assert!(!ApiKind::ClusterRole.is_namespaced());
    assert_eq!(ApiKind::StatefulSet.kind_name(), "StatefulSet");
    assert_eq!(ApiKind::Deployment.scale_failed("denied"), "Failed to scale Deployment: denied");
    for k in [ApiKind::Pod, ApiKind::Node, ApiKind::RoleBinding, ApiKind::ClusterRoleBinding] {
        assert_eq!(parse_api_kind(k.kind_name()), Ok(k));
    }
}

#[test]
fn resource_operations() {
    assert_eq!(handle_resource_operation(ResourceOperation::Get, None), Ok(ResourceAction::Get));
    assert_eq!(
        handle_resource_operation(ResourceOperation::Scale, None),
        Err("Parameters required for scale operation".to_string())
    );
    assert_eq!(
        handle_resource_operation(ResourceOperation::Scale, Some(ResourceParams { replicas: None, yaml_content: None })),
        Err("Replicas parameter required for scale operation".to_string())
    );
    assert_eq!(
        handle_resource_operation(ResourceOperation::Scale, Some(ResourceParams { replicas: Some(3), yaml_content: None })),
        Ok(ResourceAction::Scale(3))
    );
    assert_eq!(
        handle_resource_operation(ResourceOperation::Update, None),
        Err("Update operation not yet implemented".to_string())
    );
}

#[test]
fn resource_calls() {
    let call = handle_resource_by_kind("Pod", ResourceOperation::Delete, Some("dev"), None).unwrap();
    assert_eq!(call.kind, ApiKind::Pod);
    assert_eq!(call.namespace.as_deref(), Some("dev"));
    assert_eq!(call.action, ResourceAction::Delete);
    let call = handle_resource_by_kind("Node", ResourceOperation::Get, Some("dev"), None).unwrap();
    assert_eq!(call.namespace, None);
    assert_eq!(
        handle_resource_by_kind("Widget", ResourceOperation::Update, None, None).unwrap_err(),
        "Unsupported resource kind: Widget"
    );
    assert_eq!(
        handle_resource_by_kind("Pod", ResourceOperation::Update, None, None).unwrap_err(),
        "Update operation not yet implemented"
    );
}
