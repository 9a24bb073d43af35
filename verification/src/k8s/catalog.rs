//! The Kubernetes resource types the application knows, with their scope,
//! category, kind and API version.
use vstd::prelude::*;
use crate::ordering::views;
use crate::text::{owned, str_eq};

verus! {

/// One known resource type.
pub struct ResourceRow {
    pub resource_type: Seq<char>,
    pub is_namespaced: bool,
    pub category: Seq<char>,
    pub kind: Seq<char>,
    pub api_version: Seq<char>,
}

/// The number of known resource types.
pub const RESOURCE_TYPE_COUNT: usize = 37;

/// Every known resource type, in a fixed order.
pub open spec fn resource_table() -> Seq<ResourceRow> {
    seq![
        ResourceRow { resource_type: "pods"@, is_namespaced: true, category: "Workloads"@, kind: "Pod"@, api_version: "v1"@ },
        ResourceRow { resource_type: "deployments"@, is_namespaced: true, category: "Workloads"@, kind: "Deployment"@, api_version: "apps/v1"@ },
        ResourceRow { resource_type: "statefulsets"@, is_namespaced: true, category: "Workloads"@, kind: "StatefulSet"@, api_version: "apps/v1"@ },
        ResourceRow { resource_type: "daemonsets"@, is_namespaced: true, category: "Workloads"@, kind: "DaemonSet"@, api_version: "apps/v1"@ },
        ResourceRow { resource_type: "jobs"@, is_namespaced: true, category: "Workloads"@, kind: "Job"@, api_version: "batch/v1"@ },
        ResourceRow { resource_type: "cronjobs"@, is_namespaced: true, category: "Workloads"@, kind: "CronJob"@, api_version: "batch/v1"@ },
        ResourceRow { resource_type: "replicasets"@, is_namespaced: true, category: "Workloads"@, kind: "ReplicaSet"@, api_version: "apps/v1"@ },
        ResourceRow { resource_type: "replicationcontrollers"@, is_namespaced: true, category: "Workloads"@, kind: "ReplicationController"@, api_version: "v1"@ },
        ResourceRow { resource_type: "services"@, is_namespaced: true, category: "Services & Networking"@, kind: "Service"@, api_version: "v1"@ },
        ResourceRow { resource_type: "ingresses"@, is_namespaced: true, category: "Services & Networking"@, kind: "Ingress"@, api_version: "networking.k8s.io/v1"@ },
        ResourceRow { resource_type: "ingressclasses"@, is_namespaced: false, category: "Services & Networking"@, kind: "IngressClass"@, api_version: "networking.k8s.io/v1"@ },
        ResourceRow { resource_type: "networkpolicies"@, is_namespaced: true, category: "Services & Networking"@, kind: "NetworkPolicy"@, api_version: "networking.k8s.io/v1"@ },
        ResourceRow { resource_type: "endpointslices"@, is_namespaced: true, category: "Services & Networking"@, kind: "EndpointSlice"@, api_version: "discovery.k8s.io/v1"@ },
        ResourceRow { resource_type: "endpoints"@, is_namespaced: true, category: "Services & Networking"@, kind: "Endpoints"@, api_version: "v1"@ },
        ResourceRow { resource_type: "configmaps"@, is_namespaced: true, category: "Configuration"@, kind: "ConfigMap"@, api_version: "v1"@ },
        ResourceRow { resource_type: "secrets"@, is_namespaced: true, category: "Configuration"@, kind: "Secret"@, api_version: "v1"@ },
        ResourceRow { resource_type: "persistentvolumeclaims"@, is_namespaced: true, category: "Storage"@, kind: "PersistentVolumeClaim"@, api_version: "v1"@ },
        ResourceRow { resource_type: "persistentvolumes"@, is_namespaced: false, category: "Storage"@, kind: "PersistentVolume"@, api_version: "v1"@ },
        ResourceRow { resource_type: "storageclasses"@, is_namespaced: false, category: "Storage"@, kind: "StorageClass"@, api_version: "storage.k8s.io/v1"@ },
        ResourceRow { resource_type: "csidrivers"@, is_namespaced: false, category: "Storage"@, kind: "CSIDriver"@, api_version: "storage.k8s.io/v1"@ },
        ResourceRow { resource_type: "csinodes"@, is_namespaced: false, category: "Storage"@, kind: "CSINode"@, api_version: "storage.k8s.io/v1"@ },
        ResourceRow { resource_type: "serviceaccounts"@, is_namespaced: true, category: "Cluster Administration"@, kind: "ServiceAccount"@, api_version: "v1"@ },
        ResourceRow { resource_type: "resourcequotas"@, is_namespaced: true, category: "Cluster Administration"@, kind: "ResourceQuota"@, api_version: "v1"@ },
        ResourceRow { resource_type: "limitranges"@, is_namespaced: true, category: "Cluster Administration"@, kind: "LimitRange"@, api_version: "v1"@ },
        ResourceRow { resource_type: "poddisruptionbudgets"@, is_namespaced: true, category: "Cluster Administration"@, kind: "PodDisruptionBudget"@, api_version: "policy/v1"@ },
        ResourceRow { resource_type: "namespaces"@, is_namespaced: false, category: "Cluster Administration"@, kind: "Namespace"@, api_version: "v1"@ },
        ResourceRow { resource_type: "nodes"@, is_namespaced: false, category: "Cluster Administration"@, kind: "Node"@, api_version: "v1"@ },
        ResourceRow { resource_type: "priorityclasses"@, is_namespaced: false, category: "Cluster Administration"@, kind: "PriorityClass"@, api_version: "scheduling.k8s.io/v1"@ },
        ResourceRow { resource_type: "runtimeclasses"@, is_namespaced: false, category: "Cluster Administration"@, kind: "RuntimeClass"@, api_version: "node.k8s.io/v1"@ },
        ResourceRow { resource_type: "roles"@, is_namespaced: true, category: "Security & Access Control"@, kind: "Role"@, api_version: "rbac.authorization.k8s.io/v1"@ },
        ResourceRow { resource_type: "rolebindings"@, is_namespaced: true, category: "Security & Access Control"@, kind: "RoleBinding"@, api_version: "rbac.authorization.k8s.io/v1"@ },
        ResourceRow { resource_type: "clusterroles"@, is_namespaced: false, category: "Security & Access Control"@, kind: "ClusterRole"@, api_version: "rbac.authorization.k8s.io/v1"@ },
        ResourceRow { resource_type: "clusterrolebindings"@, is_namespaced: false, category: "Security & Access Control"@, kind: "ClusterRoleBinding"@, api_version: "rbac.authorization.k8s.io/v1"@ },
        ResourceRow { resource_type: "certificatesigningrequests"@, is_namespaced: false, category: "Security & Access Control"@, kind: "CertificateSigningRequest"@, api_version: "certificates.k8s.io/v1"@ },
        ResourceRow { resource_type: "horizontalpodautoscalers"@, is_namespaced: true, category: "Scaling"@, kind: "HorizontalPodAutoscaler"@, api_version: "autoscaling/v2"@ },
        ResourceRow { resource_type: "customresourcedefinitions"@, is_namespaced: false, category: "Custom Resources"@, kind: "CustomResourceDefinition"@, api_version: "apiextensions.k8s.io/v1"@ },
        ResourceRow { resource_type: "apiservices"@, is_namespaced: false, category: "Custom Resources"@, kind: "APIService"@, api_version: "apiregistration.k8s.io/v1"@ },
    ]
}

/// The `i`-th known resource type: its name, scope, category, kind and API
/// version.
pub fn resource_row(i: usize) -> (r: (&'static str, bool, &'static str, &'static str, &'static str))
    requires
        i < RESOURCE_TYPE_COUNT,
    ensures
        r.0@ == resource_table()[i as int].resource_type,
        r.1 == resource_table()[i as int].is_namespaced,
        r.2@ == resource_table()[i as int].category,
        r.3@ == resource_table()[i as int].kind,
        r.4@ == resource_table()[i as int].api_version,
{
    match i {
        0 => ("pods", true, "Workloads", "Pod", "v1"),
        1 => ("deployments", true, "Workloads", "Deployment", "apps/v1"),
        2 => ("statefulsets", true, "Workloads", "StatefulSet", "apps/v1"),
        3 => ("daemonsets", true, "Workloads", "DaemonSet", "apps/v1"),
        4 => ("jobs", true, "Workloads", "Job", "batch/v1"),
        5 => ("cronjobs", true, "Workloads", "CronJob", "batch/v1"),
        6 => ("replicasets", true, "Workloads", "ReplicaSet", "apps/v1"),
        7 => ("replicationcontrollers", true, "Workloads", "ReplicationController", "v1"),
        8 => ("services", true, "Services & Networking", "Service", "v1"),
        9 => ("ingresses", true, "Services & Networking", "Ingress", "networking.k8s.io/v1"),
        10 => ("ingressclasses", false, "Services & Networking", "IngressClass", "networking.k8s.io/v1"),
        11 => ("networkpolicies", true, "Services & Networking", "NetworkPolicy", "networking.k8s.io/v1"),
        12 => ("endpointslices", true, "Services & Networking", "EndpointSlice", "discovery.k8s.io/v1"),
        13 => ("endpoints", true, "Services & Networking", "Endpoints", "v1"),
        14 => ("configmaps", true, "Configuration", "ConfigMap", "v1"),
        15 => ("secrets", true, "Configuration", "Secret", "v1"),
        16 => ("persistentvolumeclaims", true, "Storage", "PersistentVolumeClaim", "v1"),
        17 => ("persistentvolumes", false, "Storage", "PersistentVolume", "v1"),
        18 => ("storageclasses", false, "Storage", "StorageClass", "storage.k8s.io/v1"),
        19 => ("csidrivers", false, "Storage", "CSIDriver", "storage.k8s.io/v1"),
        20 => ("csinodes", false, "Storage", "CSINode", "storage.k8s.io/v1"),
        21 => ("serviceaccounts", true, "Cluster Administration", "ServiceAccount", "v1"),
        22 => ("resourcequotas", true, "Cluster Administration", "ResourceQuota", "v1"),
        23 => ("limitranges", true, "Cluster Administration", "LimitRange", "v1"),
        24 => ("poddisruptionbudgets", true, "Cluster Administration", "PodDisruptionBudget", "policy/v1"),
        25 => ("namespaces", false, "Cluster Administration", "Namespace", "v1"),
        26 => ("nodes", false, "Cluster Administration", "Node", "v1"),
        27 => ("priorityclasses", false, "Cluster Administration", "PriorityClass", "scheduling.k8s.io/v1"),
        28 => ("runtimeclasses", false, "Cluster Administration", "RuntimeClass", "node.k8s.io/v1"),
        29 => ("roles", true, "Security & Access Control", "Role", "rbac.authorization.k8s.io/v1"),
        30 => ("rolebindings", true, "Security & Access Control", "RoleBinding", "rbac.authorization.k8s.io/v1"),
        31 => ("clusterroles", false, "Security & Access Control", "ClusterRole", "rbac.authorization.k8s.io/v1"),
        32 => ("clusterrolebindings", false, "Security & Access Control", "ClusterRoleBinding", "rbac.authorization.k8s.io/v1"),
        33 => ("certificatesigningrequests", false, "Security & Access Control", "CertificateSigningRequest", "certificates.k8s.io/v1"),
        34 => ("horizontalpodautoscalers", true, "Scaling", "HorizontalPodAutoscaler", "autoscaling/v2"),
        35 => ("customresourcedefinitions", false, "Custom Resources", "CustomResourceDefinition", "apiextensions.k8s.io/v1"),
        _ => ("apiservices", false, "Custom Resources", "APIService", "apiregistration.k8s.io/v1"),
    }
}

/// The position of the first row for `resource_type`, if it is known.
pub open spec fn row_index_from(resource_type: Seq<char>, i: int) -> Option<int>
    decreases resource_table().len() - i,
{
    if i < 0 || i >= resource_table().len() {
        None
    } else if resource_table()[i].resource_type == resource_type {
        Some(i)
    } else {
        row_index_from(resource_type, i + 1)
    }
}

/// The position of the row for `resource_type`, if it is known.
pub open spec fn row_index(resource_type: Seq<char>) -> Option<int> {
    row_index_from(resource_type, 0)
}

/// The row for `resource_type`, if it is known.
pub open spec fn find_row(resource_type: Seq<char>) -> Option<ResourceRow> {
    match row_index(resource_type) {
        Some(i) => Some(resource_table()[i]),
        None => None,
    }
}

proof fn lemma_row_index_from(resource_type: Seq<char>, i: int)
    requires
        0 <= i <= resource_table().len(),
    ensures
        match row_index_from(resource_type, i) {
            Some(j) => i <= j < resource_table().len() && resource_table()[j].resource_type
                == resource_type && forall|k: int|
                i <= k < j ==> resource_table()[k].resource_type != resource_type,
            None => forall|k: int|
                i <= k < resource_table().len() ==> resource_table()[k].resource_type
                    != resource_type,
        },
    decreases resource_table().len() - i,
{
    if i < resource_table().len() {
        lemma_row_index_from(resource_type, i + 1);
    }
}

/// What the first row for `resource_type` is, when there is one.
pub proof fn lemma_row_index(resource_type: Seq<char>)
    ensures
        match row_index(resource_type) {
            Some(j) => 0 <= j < resource_table().len() && resource_table()[j].resource_type
                == resource_type && forall|k: int|
                0 <= k < j ==> resource_table()[k].resource_type != resource_type,
            None => forall|k: int|
                0 <= k < resource_table().len() ==> resource_table()[k].resource_type
                    != resource_type,
        },
{
    lemma_row_index_from(resource_type, 0);
}

/// The position of the row for `resource_type`, if it is known.
pub fn lookup_row(resource_type: &str) -> (r: Option<usize>)
    ensures
        match r {
            Some(i) => row_index(resource_type@) == Some(i as int) && i < RESOURCE_TYPE_COUNT,
            None => row_index(resource_type@) is None,
        },
{
    proof {
        lemma_row_index_from(resource_type@, 0);
    }
    let mut i: usize = 0;
    while i < RESOURCE_TYPE_COUNT
        invariant
            i <= RESOURCE_TYPE_COUNT,
            resource_table().len() == RESOURCE_TYPE_COUNT,
            forall|k: int| 0 <= k < i ==> resource_table()[k].resource_type != resource_type@,
        decreases RESOURCE_TYPE_COUNT - i,
    {
        let row = resource_row(i);
        if str_eq(row.0, resource_type) {
            proof {
                lemma_row_index_from(resource_type@, 0);
            }
            return Some(i);
        }
        i = i + 1;
    }
    None
}

/// The position of a resource type in the table, or -1.
spec fn type_position(t: Seq<char>) -> int {
    if t == "pods"@ {
        0
    } else if t == "deployments"@ {
        1
    } else if t == "statefulsets"@ {
        2
    } else if t == "daemonsets"@ {
        3
    } else if t == "jobs"@ {
        4
    } else if t == "cronjobs"@ {
        5
    } else if t == "replicasets"@ {
        6
    } else if t == "replicationcontrollers"@ {
        7
    } else if t == "services"@ {
        8
    } else if t == "ingresses"@ {
        9
    } else if t == "ingressclasses"@ {
        10
    } else if t == "networkpolicies"@ {
        11
    } else if t == "endpointslices"@ {
        12
    } else if t == "endpoints"@ {
        13
    } else if t == "configmaps"@ {
        14
    } else if t == "secrets"@ {
        15
    } else if t == "persistentvolumeclaims"@ {
        16
    } else if t == "persistentvolumes"@ {
        17
    } else if t == "storageclasses"@ {
        18
    } else if t == "csidrivers"@ {
        19
    } else if t == "csinodes"@ {
        20
    } else if t == "serviceaccounts"@ {
        21
    } else if t == "resourcequotas"@ {
        22
    } else if t == "limitranges"@ {
        23
    } else if t == "poddisruptionbudgets"@ {
        24
    } else if t == "namespaces"@ {
        25
    } else if t == "nodes"@ {
        26
    } else if t == "priorityclasses"@ {
        27
    } else if t == "runtimeclasses"@ {
        28
    } else if t == "roles"@ {
        29
    } else if t == "rolebindings"@ {
        30
    } else if t == "clusterroles"@ {
        31
    } else if t == "clusterrolebindings"@ {
        32
    } else if t == "certificatesigningrequests"@ {
        33
    } else if t == "horizontalpodautoscalers"@ {
        34
    } else if t == "customresourcedefinitions"@ {
        35
    } else if t == "apiservices"@ {
        36
    } else {
        -1
    }
}

/// No resource type is listed twice.
#[verifier::spinoff_prover]
#[verifier::rlimit(100)]
pub proof fn lemma_types_distinct()
    ensures
        forall|i: int, j: int|
            0 <= i < j < resource_table().len() ==> #[trigger] resource_table()[i].resource_type
                != #[trigger] resource_table()[j].resource_type,
{
    reveal_strlit("pods");
    reveal_strlit("deployments");
    reveal_strlit("statefulsets");
    reveal_strlit("daemonsets");
    reveal_strlit("jobs");
    reveal_strlit("cronjobs");
    reveal_strlit("replicasets");
    reveal_strlit("replicationcontrollers");
    reveal_strlit("services");
    reveal_strlit("ingresses");
    reveal_strlit("ingressclasses");
    reveal_strlit("networkpolicies");
    reveal_strlit("endpointslices");
    reveal_strlit("endpoints");
    reveal_strlit("configmaps");
    reveal_strlit("secrets");
    reveal_strlit("persistentvolumeclaims");
    reveal_strlit("persistentvolumes");
    reveal_strlit("storageclasses");
    reveal_strlit("csidrivers");
    reveal_strlit("csinodes");
    reveal_strlit("serviceaccounts");
    reveal_strlit("resourcequotas");
    reveal_strlit("limitranges");
    reveal_strlit("poddisruptionbudgets");
    reveal_strlit("namespaces");
    reveal_strlit("nodes");
    reveal_strlit("priorityclasses");
    reveal_strlit("runtimeclasses");
    reveal_strlit("roles");
    reveal_strlit("rolebindings");
    reveal_strlit("clusterroles");
    reveal_strlit("clusterrolebindings");
    reveal_strlit("certificatesigningrequests");
    reveal_strlit("horizontalpodautoscalers");
    reveal_strlit("customresourcedefinitions");
    reveal_strlit("apiservices");
    assert("pods"@.len() == 4);
    assert("deployments"@.len() == 11);
    assert("statefulsets"@.len() == 12);
    assert("daemonsets"@.len() == 10);
    assert("jobs"@.len() == 4);
    assert("cronjobs"@.len() == 8);
    assert("replicasets"@.len() == 11);
    assert("replicationcontrollers"@.len() == 22);
    assert("services"@.len() == 8);
    assert("ingresses"@.len() == 9);
    assert("ingressclasses"@.len() == 14);
    assert("networkpolicies"@.len() == 15);
    assert("endpointslices"@.len() == 14);
    assert("endpoints"@.len() == 9);
    assert("configmaps"@.len() == 10);
    assert("secrets"@.len() == 7);
    assert("persistentvolumeclaims"@.len() == 22);
    assert("persistentvolumes"@.len() == 17);
    assert("storageclasses"@.len() == 14);
    assert("csidrivers"@.len() == 10);
    assert("csinodes"@.len() == 8);
    assert("serviceaccounts"@.len() == 15);
    assert("resourcequotas"@.len() == 14);
    assert("limitranges"@.len() == 11);
    assert("poddisruptionbudgets"@.len() == 20);
    assert("namespaces"@.len() == 10);
    assert("nodes"@.len() == 5);
    assert("priorityclasses"@.len() == 15);
    assert("runtimeclasses"@.len() == 14);
    assert("roles"@.len() == 5);
    assert("rolebindings"@.len() == 12);
    assert("clusterroles"@.len() == 12);
    assert("clusterrolebindings"@.len() == 19);
    assert("certificatesigningrequests"@.len() == 26);
    assert("horizontalpodautoscalers"@.len() == 24);
    assert("customresourcedefinitions"@.len() == 25);
    assert("apiservices"@.len() == 11);
    assert("pods"@[0] != "jobs"@[0]);
    assert("deployments"@[0] != "replicasets"@[0]);
    assert("deployments"@[0] != "limitranges"@[0]);
    assert("deployments"@[0] != "apiservices"@[0]);
    assert("statefulsets"@[0] != "rolebindings"@[0]);
    assert("statefulsets"@[0] != "clusterroles"@[0]);
    assert("daemonsets"@[0] != "configmaps"@[0]);
    assert("daemonsets"@[0] != "csidrivers"@[0]);
    assert("daemonsets"@[0] != "namespaces"@[0]);
    assert("cronjobs"@[0] != "services"@[0]);
    assert("cronjobs"@[1] != "csinodes"@[1]);
    assert("replicasets"@[0] != "limitranges"@[0]);
    assert("replicasets"@[0] != "apiservices"@[0]);
    assert("replicationcontrollers"@[0] != "persistentvolumeclaims"@[0]);
    assert("services"@[0] != "csinodes"@[0]);
    assert("ingresses"@[0] != "endpoints"@[0]);
    assert("ingressclasses"@[0] != "endpointslices"@[0]);
    assert("ingressclasses"@[0] != "storageclasses"@[0]);
    assert("ingressclasses"@[0] != "resourcequotas"@[0]);
    assert("ingressclasses"@[0] != "runtimeclasses"@[0]);
    assert("networkpolicies"@[0] != "serviceaccounts"@[0]);
    assert("networkpolicies"@[0] != "priorityclasses"@[0]);
    assert("endpointslices"@[0] != "storageclasses"@[0]);
    assert("endpointslices"@[0] != "resourcequotas"@[0]);
    assert("endpointslices"@[0] != "runtimeclasses"@[0]);
    assert("configmaps"@[1] != "csidrivers"@[1]);
    assert("configmaps"@[0] != "namespaces"@[0]);
    assert("storageclasses"@[0] != "resourcequotas"@[0]);
    assert("storageclasses"@[0] != "runtimeclasses"@[0]);
    assert("csidrivers"@[0] != "namespaces"@[0]);
    assert("serviceaccounts"@[0] != "priorityclasses"@[0]);
    assert("resourcequotas"@[1] != "runtimeclasses"@[1]);
    assert("limitranges"@[0] != "apiservices"@[0]);
    assert("nodes"@[0] != "roles"@[0]);
    assert("rolebindings"@[0] != "clusterroles"@[0]);
    assert forall|i: int| 0 <= i < resource_table().len() implies type_position(
        #[trigger] resource_table()[i].resource_type,
    ) == i by {
        if i == 0 {
            assert(resource_table()[0].resource_type == "pods"@);
        } else if i == 1 {
            assert(resource_table()[1].resource_type == "deployments"@);
        } else if i == 2 {
            assert(resource_table()[2].resource_type == "statefulsets"@);
        } else if i == 3 {
            assert(resource_table()[3].resource_type == "daemonsets"@);
        } else if i == 4 {
            assert(resource_table()[4].resource_type == "jobs"@);
        } else if i == 5 {
            assert(resource_table()[5].resource_type == "cronjobs"@);
        } else if i == 6 {
            assert(resource_table()[6].resource_type == "replicasets"@);
        } else if i == 7 {
            assert(resource_table()[7].resource_type == "replicationcontrollers"@);
        } else if i == 8 {
            assert(resource_table()[8].resource_type == "services"@);
        } else if i == 9 {
            assert(resource_table()[9].resource_type == "ingresses"@);
        } else if i == 10 {
            assert(resource_table()[10].resource_type == "ingressclasses"@);
        } else if i == 11 {
            assert(resource_table()[11].resource_type == "networkpolicies"@);
        } else if i == 12 {
            assert(resource_table()[12].resource_type == "endpointslices"@);
        } else if i == 13 {
            assert(resource_table()[13].resource_type == "endpoints"@);
        } else if i == 14 {
            assert(resource_table()[14].resource_type == "configmaps"@);
        } else if i == 15 {
            assert(resource_table()[15].resource_type == "secrets"@);
        } else if i == 16 {
            assert(resource_table()[16].resource_type == "persistentvolumeclaims"@);
        } else if i == 17 {
            assert(resource_table()[17].resource_type == "persistentvolumes"@);
        } else if i == 18 {
            assert(resource_table()[18].resource_type == "storageclasses"@);
        } else if i == 19 {
            assert(resource_table()[19].resource_type == "csidrivers"@);
        } else if i == 20 {
            assert(resource_table()[20].resource_type == "csinodes"@);
        } else if i == 21 {
            assert(resource_table()[21].resource_type == "serviceaccounts"@);
        } else if i == 22 {
            assert(resource_table()[22].resource_type == "resourcequotas"@);
        } else if i == 23 {
            assert(resource_table()[23].resource_type == "limitranges"@);
        } else if i == 24 {
            assert(resource_table()[24].resource_type == "poddisruptionbudgets"@);
        } else if i == 25 {
            assert(resource_table()[25].resource_type == "namespaces"@);
        } else if i == 26 {
            assert(resource_table()[26].resource_type == "nodes"@);
        } else if i == 27 {
            assert(resource_table()[27].resource_type == "priorityclasses"@);
        } else if i == 28 {
            assert(resource_table()[28].resource_type == "runtimeclasses"@);
        } else if i == 29 {
            assert(resource_table()[29].resource_type == "roles"@);
        } else if i == 30 {
            assert(resource_table()[30].resource_type == "rolebindings"@);
        } else if i == 31 {
            assert(resource_table()[31].resource_type == "clusterroles"@);
        } else if i == 32 {
            assert(resource_table()[32].resource_type == "clusterrolebindings"@);
        } else if i == 33 {
            assert(resource_table()[33].resource_type == "certificatesigningrequests"@);
        } else if i == 34 {
            assert(resource_table()[34].resource_type == "horizontalpodautoscalers"@);
        } else if i == 35 {
            assert(resource_table()[35].resource_type == "customresourcedefinitions"@);
        } else if i == 36 {
            assert(resource_table()[36].resource_type == "apiservices"@);
        }
    }
}

/// The row found for a listed resource type is the row that lists it.
pub proof fn lemma_find_row_at(k: int)
    requires
        0 <= k < resource_table().len(),
    ensures
        find_row(resource_table()[k].resource_type) == Some(resource_table()[k]),
{
    let t = resource_table()[k].resource_type;
    lemma_types_distinct();
    lemma_row_index(t);
    match row_index(t) {
        Some(j) => {
            if j < k {
                assert(resource_table()[j].resource_type != resource_table()[k].resource_type);
            } else if j > k {
                assert(resource_table()[k].resource_type != resource_table()[j].resource_type);
            }
        },
        None => {
            assert(resource_table()[k].resource_type != t);
        },
    }
}

} // verus!
