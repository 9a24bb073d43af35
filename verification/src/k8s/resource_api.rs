//! Operations on one resource of a kind: which kinds are served, in which
//! part of the cluster the request goes, and what each operation needs.
use vstd::prelude::*;
use crate::text::{concat, owned, str_eq};

verus! {

/// The kinds whose resources can be read, deleted and scaled one by one.
#[derive(Debug, Clone, Copy, PartialEq, Eq, Structural)]
pub enum ApiKind {
    Pod,
    Service,
    ConfigMap,
    Secret,
    Namespace,
    Node,
    PersistentVolume,
    PersistentVolumeClaim,
    Deployment,
    StatefulSet,
    DaemonSet,
    ReplicaSet,
    Ingress,
    Role,
    RoleBinding,
    ClusterRole,
    ClusterRoleBinding,
}

/// The kind named `kind`, if it is served.
pub open spec fn api_kind_of(kind: Seq<char>) -> Option<ApiKind> {
    if kind == "Pod"@ {
        Some(ApiKind::Pod)
    } else if kind == "Service"@ {
        Some(ApiKind::Service)
    } else if kind == "ConfigMap"@ {
        Some(ApiKind::ConfigMap)
    } else if kind == "Secret"@ {
        Some(ApiKind::Secret)
    } else if kind == "Namespace"@ {
        Some(ApiKind::Namespace)
    } else if kind == "Node"@ {
        Some(ApiKind::Node)
    } else if kind == "PersistentVolume"@ {
        Some(ApiKind::PersistentVolume)
    } else if kind == "PersistentVolumeClaim"@ {
        Some(ApiKind::PersistentVolumeClaim)
    } else if kind == "Deployment"@ {
        Some(ApiKind::Deployment)
    } else if kind == "StatefulSet"@ {
        Some(ApiKind::StatefulSet)
    } else if kind == "DaemonSet"@ {
        Some(ApiKind::DaemonSet)
    } else if kind == "ReplicaSet"@ {
        Some(ApiKind::ReplicaSet)
    } else if kind == "Ingress"@ {
        Some(ApiKind::Ingress)
    } else if kind == "Role"@ {
        Some(ApiKind::Role)
    } else if kind == "RoleBinding"@ {
        Some(ApiKind::RoleBinding)
    } else if kind == "ClusterRole"@ {
        Some(ApiKind::ClusterRole)
    } else if kind == "ClusterRoleBinding"@ {
        Some(ApiKind::ClusterRoleBinding)
    } else {
        None
    }
}

/// Whether resources of a kind live in namespaces.
pub open spec fn kind_is_namespaced(k: ApiKind) -> bool {
    match k {
        ApiKind::Namespace | ApiKind::Node | ApiKind::PersistentVolume | ApiKind::ClusterRole
        | ApiKind::ClusterRoleBinding => false,
        _ => true,
    }
}

impl ApiKind {
    /// Whether resources of this kind live in namespaces.
    pub fn is_namespaced(&self) -> (r: bool)
        ensures
            r == kind_is_namespaced(*self),
    {
        match self {
            ApiKind::Namespace | ApiKind::Node | ApiKind::PersistentVolume | ApiKind::ClusterRole
            | ApiKind::ClusterRoleBinding => false,
            _ => true,
        }
    }
}

/// The served kind named `kind`; another name is refused as unsupported.
pub fn parse_api_kind(kind: &str) -> (r: Result<ApiKind, String>)
    ensures
        match api_kind_of(kind@) {
            Some(k) => r == Ok::<ApiKind, String>(k),
            None => r matches Err(m) && m@ == "Unsupported resource kind: "@ + kind@,
        },
{
    let k = kind;
    if str_eq(k, "Pod") {
        Ok(ApiKind::Pod)
    } else if str_eq(k, "Service") {
        Ok(ApiKind::Service)
    } else if str_eq(k, "ConfigMap") {
        Ok(ApiKind::ConfigMap)
    } else if str_eq(k, "Secret") {
        Ok(ApiKind::Secret)
    } else if str_eq(k, "Namespace") {
        Ok(ApiKind::Namespace)
    } else if str_eq(k, "Node") {
        Ok(ApiKind::Node)
    } else if str_eq(k, "PersistentVolume") {
        Ok(ApiKind::PersistentVolume)
    } else if str_eq(k, "PersistentVolumeClaim") {
        Ok(ApiKind::PersistentVolumeClaim)
    } else if str_eq(k, "Deployment") {
        Ok(ApiKind::Deployment)
    } else if str_eq(k, "StatefulSet") {
        Ok(ApiKind::StatefulSet)
    } else if str_eq(k, "DaemonSet") {
        Ok(ApiKind::DaemonSet)
    } else if str_eq(k, "ReplicaSet") {
        Ok(ApiKind::ReplicaSet)
    } else if str_eq(k, "Ingress") {
        Ok(ApiKind::Ingress)
    } else if str_eq(k, "Role") {
        Ok(ApiKind::Role)
    } else if str_eq(k, "RoleBinding") {
        Ok(ApiKind::RoleBinding)
    } else if str_eq(k, "ClusterRole") {
        Ok(ApiKind::ClusterRole)
    } else if str_eq(k, "ClusterRoleBinding") {
        Ok(ApiKind::ClusterRoleBinding)
    } else {
        Err(concat("Unsupported resource kind: ", kind))
    }
}

/// What can be done to one resource.
#[derive(Debug, Clone, Copy, PartialEq, Eq, Structural)]
pub enum ResourceOperation {
    Get,
    Delete,
    Scale,
    Update,
}

/// The parameters of an operation.
#[derive(Debug)]
pub struct ResourceParams {
    pub replicas: Option<i32>,
    pub yaml_content: Option<String>,
}

/// What is sent to the cluster for an operation.
#[derive(Debug, Clone, Copy, PartialEq, Eq, Structural)]
pub enum ResourceAction {
    Get,
    Delete,
    /// Set the number of replicas.
    Scale(i32),
}

/// A request on one resource: its kind, the namespace the request goes to
/// (`None` for the whole cluster), and the action.
#[derive(Debug)]
pub struct ResourceCall {
    pub kind: ApiKind,
    pub namespace: Option<String>,
    pub action: ResourceAction,
}

/// The namespace a request on a kind goes to: the given one for a
/// namespaced kind, none for a cluster-wide kind.
pub open spec fn request_namespace(k: ApiKind, namespace: Option<Seq<char>>) -> Option<Seq<char>> {
    if kind_is_namespaced(k) {
        namespace
    } else {
        None
    }
}

/// The action of an operation with its parameters, or why there is none.
pub open spec fn action_of(operation: ResourceOperation, params: Option<ResourceParams>) -> Result<
    ResourceAction,
    Seq<char>,
> {
    match operation {
        ResourceOperation::Get => Ok(ResourceAction::Get),
        ResourceOperation::Delete => Ok(ResourceAction::Delete),
        ResourceOperation::Scale => match params {
            Some(p) => match p.replicas {
                Some(n) => Ok(ResourceAction::Scale(n)),
                None => Err("Replicas parameter required for scale operation"@),
            },
            None => Err("Parameters required for scale operation"@),
        },
        ResourceOperation::Update => Err("Update operation not yet implemented"@),
    }
}

/// The request for `operation` on a resource of `kind` in `namespace`: an
/// unsupported kind is refused first, then an operation that lacks what it
/// needs.
pub fn handle_resource_by_kind(
    kind: &str,
    operation: ResourceOperation,
    namespace: Option<&str>,
    params: Option<ResourceParams>,
) -> (r: Result<ResourceCall, String>)
    ensures
        match api_kind_of(kind@) {
            None => r matches Err(m) && m@ == "Unsupported resource kind: "@ + kind@,
            Some(k) => match action_of(operation, params) {
                Err(m) => r matches Err(e) && e@ == m,
                Ok(a) => r matches Ok(call) && call.kind == k && call.action == a && match (
                    call.namespace,
                    request_namespace(
                        k,
                        match namespace {
                            Some(n) => Some(n@),
                            None => None,
                        },
                    ),
                ) {
                    (Some(x), Some(y)) => x@ == y,
                    (None, None) => true,
                    _ => false,
                },
            },
        },
{
    let k = match parse_api_kind(kind) {
        Ok(k) => k,
        Err(e) => return Err(e),
    };
    let action = match handle_resource_operation(operation, params) {
        Ok(a) => a,
        Err(e) => return Err(e),
    };
    let ns = if k.is_namespaced() {
        match namespace {
            Some(n) => Some(owned(n)),
            None => None,
        }
    } else {
        None
    };
    Ok(ResourceCall { kind: k, namespace: ns, action })
}

/// The action of an operation with its parameters; scaling needs a number
/// of replicas, and updating is not offered.
pub fn handle_resource_operation(operation: ResourceOperation, params: Option<ResourceParams>) -> (r:
    Result<ResourceAction, String>)
    ensures
        match action_of(operation, params) {
            Ok(a) => r == Ok::<ResourceAction, String>(a),
            Err(m) => r matches Err(e) && e@ == m,
        },
{
    match operation {
        ResourceOperation::Get => Ok(ResourceAction::Get),
        ResourceOperation::Delete => Ok(ResourceAction::Delete),
        ResourceOperation::Scale => match params {
            Some(p) => match p.replicas {
                Some(n) => Ok(ResourceAction::Scale(n)),
                None => Err(owned("Replicas parameter required for scale operation")),
            },
            None => Err(owned("Parameters required for scale operation")),
        },
        ResourceOperation::Update => Err(owned("Update operation not yet implemented")),
    }
}

/// The name of a kind.
pub open spec fn kind_name_text(k: ApiKind) -> Seq<char> {
    match k {
        ApiKind::Pod => "Pod"@,
        ApiKind::Service => "Service"@,
        ApiKind::ConfigMap => "ConfigMap"@,
        ApiKind::Secret => "Secret"@,
        ApiKind::Namespace => "Namespace"@,
        ApiKind::Node => "Node"@,
        ApiKind::PersistentVolume => "PersistentVolume"@,
        ApiKind::PersistentVolumeClaim => "PersistentVolumeClaim"@,
        ApiKind::Deployment => "Deployment"@,
        ApiKind::StatefulSet => "StatefulSet"@,
        ApiKind::DaemonSet => "DaemonSet"@,
        ApiKind::ReplicaSet => "ReplicaSet"@,
        ApiKind::Ingress => "Ingress"@,
        ApiKind::Role => "Role"@,
        ApiKind::RoleBinding => "RoleBinding"@,
        ApiKind::ClusterRole => "ClusterRole"@,
        ApiKind::ClusterRoleBinding => "ClusterRoleBinding"@,
    }
}

impl ApiKind {
    /// The name of this kind.
    pub fn kind_name(&self) -> (r: &'static str)
        ensures
            r@ == kind_name_text(*self),
    {
        match self {
            ApiKind::Pod => "Pod",
            ApiKind::Service => "Service",
            ApiKind::ConfigMap => "ConfigMap",
            ApiKind::Secret => "Secret",
            ApiKind::Namespace => "Namespace",
            ApiKind::Node => "Node",
            ApiKind::PersistentVolume => "PersistentVolume",
            ApiKind::PersistentVolumeClaim => "PersistentVolumeClaim",
            ApiKind::Deployment => "Deployment",
            ApiKind::StatefulSet => "StatefulSet",
            ApiKind::DaemonSet => "DaemonSet",
            ApiKind::ReplicaSet => "ReplicaSet",
            ApiKind::Ingress => "Ingress",
            ApiKind::Role => "Role",
            ApiKind::RoleBinding => "RoleBinding",
            ApiKind::ClusterRole => "ClusterRole",
            ApiKind::ClusterRoleBinding => "ClusterRoleBinding",
        }
    }

    /// The error of a scale request that the cluster refused.
    pub fn scale_failed(&self, error: &str) -> (r: String)
        ensures
            r@ == "Failed to scale "@ + kind_name_text(*self) + ": "@ + error@,
    {
        let mut m = owned("Failed to scale ");
        crate::ordering::push_str(&mut m, self.kind_name());
        crate::ordering::push_str(&mut m, ": ");
        crate::ordering::push_str(&mut m, error);
        m
    }
}

} // verus!
