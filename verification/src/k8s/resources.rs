//! The catalogue of resource types shown to the user, grouped by category.
use vstd::prelude::*;
use crate::k8s::catalog::{find_row, lemma_row_index, resource_table, row_index, ResourceRow};
use crate::k8s::resource_map::{lemma_scope_known_iff_supported, supported_types};
use crate::k8s::watch::kind_and_api_version;
use crate::text::owned;

verus! {

/// A resource type as plain values.
pub struct ResourceView {
    pub name: Seq<char>,
    pub api_version: Seq<char>,
    pub kind: Seq<char>,
    pub namespaced: bool,
    pub description: Seq<char>,
}

/// A category as plain values.
pub struct CategoryView {
    pub name: Seq<char>,
    pub resources: Seq<ResourceView>,
}

/// A logical grouping of related Kubernetes resource types.
#[derive(Debug, Clone)]
pub struct K8sResourceCategory {
    /// Display name for this category (e.g., "Workloads", "Storage")
    pub name: String,
    /// List of resources belonging to this category
    pub resources: Vec<K8sResource>,
}

/// Metadata about a specific Kubernetes resource type.
#[derive(Debug, Clone)]
pub struct K8sResource {
    /// Human-readable display name (e.g., "Pods", "Deployments")
    pub name: String,
    /// Kubernetes API version for this resource (e.g., "v1", "apps/v1")
    pub api_version: String,
    /// Kubernetes Kind for this resource (e.g., "Pod", "Deployment")
    pub kind: String,
    /// Whether this resource is namespaced (true) or cluster-wide (false)
    pub namespaced: bool,
    /// Brief description of what this resource type is used for
    pub description: String,
}

/// Reference to another Kubernetes object that owns this resource.
#[derive(Debug, Clone)]
pub struct K8sOwnerReference {
    /// API version of the owner object
    pub api_version: String,
    /// Kind of the owner object (e.g., "ReplicaSet", "Deployment")
    pub kind: String,
    /// Name of the owner object
    pub name: String,
    /// Unique identifier of the owner object
    pub uid: String,
    /// Whether this owner is the controller (primary owner)
    pub controller: Option<bool>,
    /// Whether deletion of this object is blocked by the owner
    pub block_owner_deletion: Option<bool>,
}

impl View for K8sResource {
    type V = ResourceView;

    open spec fn view(&self) -> ResourceView {
        ResourceView {
            name: self.name@,
            api_version: self.api_version@,
            kind: self.kind@,
            namespaced: self.namespaced,
            description: self.description@,
        }
    }
}

/// The views of a list of resources.
pub open spec fn resource_views(s: Seq<K8sResource>) -> Seq<ResourceView> {
    s.map_values(|x: K8sResource| x@)
}

impl View for K8sResourceCategory {
    type V = CategoryView;

    open spec fn view(&self) -> CategoryView {
        CategoryView { name: self.name@, resources: resource_views(self.resources@) }
    }
}

/// The views of a list of categories.
pub open spec fn category_views(s: Seq<K8sResourceCategory>) -> Seq<CategoryView> {
    s.map_values(|x: K8sResourceCategory| x@)
}

/// The resource types of the category "Commonly used".
pub open spec fn catalog_category_0() -> CategoryView {
    CategoryView {
        name: "Commonly used"@,
        resources: seq![
        ResourceView { name: "Pods"@, api_version: "v1"@, kind: "Pod"@, namespaced: true, description: "Smallest deployable units in Kubernetes"@ },
        ResourceView { name: "Deployments"@, api_version: "apps/v1"@, kind: "Deployment"@, namespaced: true, description: "Manages ReplicaSets and provides declarative updates to Pods"@ },
        ResourceView { name: "StatefulSets"@, api_version: "apps/v1"@, kind: "StatefulSet"@, namespaced: true, description: "Manages stateful applications with persistent storage"@ },
        ResourceView { name: "CronJobs"@, api_version: "batch/v1"@, kind: "CronJob"@, namespaced: true, description: "Creates Jobs on a schedule"@ },
        ResourceView { name: "Services"@, api_version: "v1"@, kind: "Service"@, namespaced: true, description: "Exposes applications running on Pods"@ },
        ResourceView { name: "Ingresses"@, api_version: "networking.k8s.io/v1"@, kind: "Ingress"@, namespaced: true, description: "Manages external access to services"@ },
        ResourceView { name: "ConfigMaps"@, api_version: "v1"@, kind: "ConfigMap"@, namespaced: true, description: "Stores non-confidential configuration data"@ },
        ResourceView { name: "Secrets"@, api_version: "v1"@, kind: "Secret"@, namespaced: true, description: "Stores sensitive data like passwords and keys"@ },
        ResourceView { name: "PersistentVolumes"@, api_version: "v1"@, kind: "PersistentVolume"@, namespaced: false, description: "Cluster-level storage resources"@ },
        ResourceView { name: "PersistentVolumeClaims"@, api_version: "v1"@, kind: "PersistentVolumeClaim"@, namespaced: true, description: "User requests for storage"@ },
        ResourceView { name: "StorageClasses"@, api_version: "storage.k8s.io/v1"@, kind: "StorageClass"@, namespaced: false, description: "Dynamic volume provisioning"@ },
        ResourceView { name: "Namespaces"@, api_version: "v1"@, kind: "Namespace"@, namespaced: false, description: "Virtual clusters within a cluster"@ },
        ResourceView { name: "Nodes"@, api_version: "v1"@, kind: "Node"@, namespaced: false, description: "Worker machines in the cluster"@ },
        ],
    }
}
/// The resource types of the category "Workloads".
pub open spec fn catalog_category_1() -> CategoryView {
    CategoryView {
        name: "Workloads"@,
        resources: seq![
        ResourceView { name: "Pods"@, api_version: "v1"@, kind: "Pod"@, namespaced: true, description: "Smallest deployable units in Kubernetes"@ },
        ResourceView { name: "Deployments"@, api_version: "apps/v1"@, kind: "Deployment"@, namespaced: true, description: "Manages ReplicaSets and provides declarative updates to Pods"@ },
        ResourceView { name: "StatefulSets"@, api_version: "apps/v1"@, kind: "StatefulSet"@, namespaced: true, description: "Manages stateful applications with persistent storage"@ },
        ResourceView { name: "DaemonSets"@, api_version: "apps/v1"@, kind: "DaemonSet"@, namespaced: true, description: "Ensures all nodes run a copy of a Pod"@ },
        ResourceView { name: "ReplicaSets"@, api_version: "apps/v1"@, kind: "ReplicaSet"@, namespaced: true, description: "Maintains a stable set of replica Pods"@ },
        ResourceView { name: "Jobs"@, api_version: "batch/v1"@, kind: "Job"@, namespaced: true, description: "Creates one or more Pods and ensures successful completion"@ },
        ResourceView { name: "CronJobs"@, api_version: "batch/v1"@, kind: "CronJob"@, namespaced: true, description: "Creates Jobs on a schedule"@ },
        ResourceView { name: "ReplicationControllers"@, api_version: "v1"@, kind: "ReplicationController"@, namespaced: true, description: "Legacy replica management (deprecated)"@ },
        ],
    }
}
/// The resource types of the category "Services & Networking".
pub open spec fn catalog_category_2() -> CategoryView {
    CategoryView {
        name: "Services & Networking"@,
        resources: seq![
        ResourceView { name: "Services"@, api_version: "v1"@, kind: "Service"@, namespaced: true, description: "Exposes applications running on Pods"@ },
        ResourceView { name: "Ingresses"@, api_version: "networking.k8s.io/v1"@, kind: "Ingress"@, namespaced: true, description: "Manages external access to services"@ },
        ResourceView { name: "IngressClasses"@, api_version: "networking.k8s.io/v1"@, kind: "IngressClass"@, namespaced: false, description: "Defines ingress controller configuration"@ },
        ResourceView { name: "NetworkPolicies"@, api_version: "networking.k8s.io/v1"@, kind: "NetworkPolicy"@, namespaced: true, description: "Controls traffic flow between Pods"@ },
        ResourceView { name: "EndpointSlices"@, api_version: "discovery.k8s.io/v1"@, kind: "EndpointSlice"@, namespaced: true, description: "Scalable tracking of network endpoints"@ },
        ResourceView { name: "Endpoints"@, api_version: "v1"@, kind: "Endpoints"@, namespaced: true, description: "Legacy endpoint tracking"@ },
        ],
    }
}
/// The resource types of the category "Configuration".
pub open spec fn catalog_category_3() -> CategoryView {
    CategoryView {
        name: "Configuration"@,
        resources: seq![
        ResourceView { name: "ConfigMaps"@, api_version: "v1"@, kind: "ConfigMap"@, namespaced: true, description: "Stores non-confidential configuration data"@ },
        ResourceView { name: "Secrets"@, api_version: "v1"@, kind: "Secret"@, namespaced: true, description: "Stores sensitive data like passwords and keys"@ },
        ResourceView { name: "ResourceQuotas"@, api_version: "v1"@, kind: "ResourceQuota"@, namespaced: true, description: "Resource usage limits per namespace"@ },
        ResourceView { name: "LimitRanges"@, api_version: "v1"@, kind: "LimitRange"@, namespaced: true, description: "Min/max resource constraints for pods and containers"@ },
        ResourceView { name: "PodDisruptionBudgets"@, api_version: "policy/v1"@, kind: "PodDisruptionBudget"@, namespaced: true, description: "Limits on voluntary disruptions during maintenance"@ },
        ],
    }
}
/// The resource types of the category "Storage".
pub open spec fn catalog_category_4() -> CategoryView {
    CategoryView {
        name: "Storage"@,
        resources: seq![
        ResourceView { name: "PersistentVolumes"@, api_version: "v1"@, kind: "PersistentVolume"@, namespaced: false, description: "Cluster-level storage resources"@ },
        ResourceView { name: "PersistentVolumeClaims"@, api_version: "v1"@, kind: "PersistentVolumeClaim"@, namespaced: true, description: "User requests for storage"@ },
        ResourceView { name: "StorageClasses"@, api_version: "storage.k8s.io/v1"@, kind: "StorageClass"@, namespaced: false, description: "Dynamic volume provisioning"@ },
        ResourceView { name: "CSIDrivers"@, api_version: "storage.k8s.io/v1"@, kind: "CSIDriver"@, namespaced: false, description: "Container Storage Interface drivers"@ },
        ResourceView { name: "CSINodes"@, api_version: "storage.k8s.io/v1"@, kind: "CSINode"@, namespaced: false, description: "Node-specific storage information"@ },
        ],
    }
}
/// The resource types of the category "Cluster Administration".
pub open spec fn catalog_category_5() -> CategoryView {
    CategoryView {
        name: "Cluster Administration"@,
        resources: seq![
        ResourceView { name: "Namespaces"@, api_version: "v1"@, kind: "Namespace"@, namespaced: false, description: "Virtual clusters within a cluster"@ },
        ResourceView { name: "Nodes"@, api_version: "v1"@, kind: "Node"@, namespaced: false, description: "Worker machines in the cluster"@ },
        ResourceView { name: "PriorityClasses"@, api_version: "scheduling.k8s.io/v1"@, kind: "PriorityClass"@, namespaced: false, description: "Pod scheduling priorities"@ },
        ResourceView { name: "RuntimeClasses"@, api_version: "node.k8s.io/v1"@, kind: "RuntimeClass"@, namespaced: false, description: "Container runtime configurations"@ },
        ResourceView { name: "ServiceAccounts"@, api_version: "v1"@, kind: "ServiceAccount"@, namespaced: true, description: "Identities for Pods and applications"@ },
        ],
    }
}
/// The resource types of the category "Security & Access Control".
pub open spec fn catalog_category_6() -> CategoryView {
    CategoryView {
        name: "Security & Access Control"@,
        resources: seq![
        ResourceView { name: "Roles"@, api_version: "rbac.authorization.k8s.io/v1"@, kind: "Role"@, namespaced: true, description: "Namespace-scoped permissions"@ },
        ResourceView { name: "ClusterRoles"@, api_version: "rbac.authorization.k8s.io/v1"@, kind: "ClusterRole"@, namespaced: false, description: "Cluster-wide permissions"@ },
        ResourceView { name: "RoleBindings"@, api_version: "rbac.authorization.k8s.io/v1"@, kind: "RoleBinding"@, namespaced: true, description: "Binds roles to users/groups"@ },
        ResourceView { name: "ClusterRoleBindings"@, api_version: "rbac.authorization.k8s.io/v1"@, kind: "ClusterRoleBinding"@, namespaced: false, description: "Binds cluster roles to users/groups"@ },
        ResourceView { name: "CertificateSigningRequests"@, api_version: "certificates.k8s.io/v1"@, kind: "CertificateSigningRequest"@, namespaced: false, description: "Certificate approval requests"@ },
        ],
    }
}
/// The resource types of the category "Scaling".
pub open spec fn catalog_category_7() -> CategoryView {
    CategoryView {
        name: "Scaling"@,
        resources: seq![
        ResourceView { name: "HorizontalPodAutoscalers"@, api_version: "autoscaling/v2"@, kind: "HorizontalPodAutoscaler"@, namespaced: true, description: "Automatic Pod scaling"@ },
        ],
    }
}
/// The resource types of the category "Custom Resources".
pub open spec fn catalog_category_8() -> CategoryView {
    CategoryView {
        name: "Custom Resources"@,
        resources: seq![
        ResourceView { name: "CustomResourceDefinitions"@, api_version: "apiextensions.k8s.io/v1"@, kind: "CustomResourceDefinition"@, namespaced: false, description: "Extends Kubernetes API"@ },
        ResourceView { name: "APIServices"@, api_version: "apiregistration.k8s.io/v1"@, kind: "APIService"@, namespaced: false, description: "Registers API extensions"@ },
        ],
    }
}

/// The whole catalogue, category by category.
pub open spec fn resource_catalog() -> Seq<CategoryView> {
    seq![catalog_category_0(), catalog_category_1(), catalog_category_2(), catalog_category_3(), catalog_category_4(), catalog_category_5(), catalog_category_6(), catalog_category_7(), catalog_category_8()]
}

fn resource(name: &str, api_version: &str, kind: &str, namespaced: bool, description: &str) -> (r: K8sResource)
    ensures
        r@ == (ResourceView {
            name: name@,
            api_version: api_version@,
            kind: kind@,
            namespaced,
            description: description@,
        }),
{
    K8sResource {
        name: owned(name),
        api_version: owned(api_version),
        kind: owned(kind),
        namespaced,
        description: owned(description),
    }
}

fn category_0() -> (r: K8sResourceCategory)
    ensures
        r@ == catalog_category_0(),
{
    let mut v: Vec<K8sResource> = Vec::new();
    v.push(resource("Pods", "v1", "Pod", true, "Smallest deployable units in Kubernetes"));
    v.push(resource("Deployments", "apps/v1", "Deployment", true, "Manages ReplicaSets and provides declarative updates to Pods"));
    v.push(resource("StatefulSets", "apps/v1", "StatefulSet", true, "Manages stateful applications with persistent storage"));
    v.push(resource("CronJobs", "batch/v1", "CronJob", true, "Creates Jobs on a schedule"));
    v.push(resource("Services", "v1", "Service", true, "Exposes applications running on Pods"));
    v.push(resource("Ingresses", "networking.k8s.io/v1", "Ingress", true, "Manages external access to services"));
    v.push(resource("ConfigMaps", "v1", "ConfigMap", true, "Stores non-confidential configuration data"));
    v.push(resource("Secrets", "v1", "Secret", true, "Stores sensitive data like passwords and keys"));
    v.push(resource("PersistentVolumes", "v1", "PersistentVolume", false, "Cluster-level storage resources"));
    v.push(resource("PersistentVolumeClaims", "v1", "PersistentVolumeClaim", true, "User requests for storage"));
    v.push(resource("StorageClasses", "storage.k8s.io/v1", "StorageClass", false, "Dynamic volume provisioning"));
    v.push(resource("Namespaces", "v1", "Namespace", false, "Virtual clusters within a cluster"));
    v.push(resource("Nodes", "v1", "Node", false, "Worker machines in the cluster"));
    let r = K8sResourceCategory { name: owned("Commonly used"), resources: v };
    assert(r@.resources =~= catalog_category_0().resources);
    r
}
fn category_1() -> (r: K8sResourceCategory)
    ensures
        r@ == catalog_category_1(),
{
    let mut v: Vec<K8sResource> = Vec::new();
    v.push(resource("Pods", "v1", "Pod", true, "Smallest deployable units in Kubernetes"));
    v.push(resource("Deployments", "apps/v1", "Deployment", true, "Manages ReplicaSets and provides declarative updates to Pods"));
    v.push(resource("StatefulSets", "apps/v1", "StatefulSet", true, "Manages stateful applications with persistent storage"));
    v.push(resource("DaemonSets", "apps/v1", "DaemonSet", true, "Ensures all nodes run a copy of a Pod"));
    v.push(resource("ReplicaSets", "apps/v1", "ReplicaSet", true, "Maintains a stable set of replica Pods"));
    v.push(resource("Jobs", "batch/v1", "Job", true, "Creates one or more Pods and ensures successful completion"));
    v.push(resource("CronJobs", "batch/v1", "CronJob", true, "Creates Jobs on a schedule"));
    v.push(resource("ReplicationControllers", "v1", "ReplicationController", true, "Legacy replica management (deprecated)"));
    let r = K8sResourceCategory { name: owned("Workloads"), resources: v };
    assert(r@.resources =~= catalog_category_1().resources);
    r
}
fn category_2() -> (r: K8sResourceCategory)
    ensures
        r@ == catalog_category_2(),
{
    let mut v: Vec<K8sResource> = Vec::new();
    v.push(resource("Services", "v1", "Service", true, "Exposes applications running on Pods"));
    v.push(resource("Ingresses", "networking.k8s.io/v1", "Ingress", true, "Manages external access to services"));
    v.push(resource("IngressClasses", "networking.k8s.io/v1", "IngressClass", false, "Defines ingress controller configuration"));
    v.push(resource("NetworkPolicies", "networking.k8s.io/v1", "NetworkPolicy", true, "Controls traffic flow between Pods"));
    v.push(resource("EndpointSlices", "discovery.k8s.io/v1", "EndpointSlice", true, "Scalable tracking of network endpoints"));
    v.push(resource("Endpoints", "v1", "Endpoints", true, "Legacy endpoint tracking"));
    let r = K8sResourceCategory { name: owned("Services & Networking"), resources: v };
    assert(r@.resources =~= catalog_category_2().resources);
    r
}
fn category_3() -> (r: K8sResourceCategory)
    ensures
        r@ == catalog_category_3(),
{
    let mut v: Vec<K8sResource> = Vec::new();
    v.push(resource("ConfigMaps", "v1", "ConfigMap", true, "Stores non-confidential configuration data"));
    v.push(resource("Secrets", "v1", "Secret", true, "Stores sensitive data like passwords and keys"));
    v.push(resource("ResourceQuotas", "v1", "ResourceQuota", true, "Resource usage limits per namespace"));
    v.push(resource("LimitRanges", "v1", "LimitRange", true, "Min/max resource constraints for pods and containers"));
    v.push(resource("PodDisruptionBudgets", "policy/v1", "PodDisruptionBudget", true, "Limits on voluntary disruptions during maintenance"));
    let r = K8sResourceCategory { name: owned("Configuration"), resources: v };
    assert(r@.resources =~= catalog_category_3().resources);
    r
}
fn category_4() -> (r: K8sResourceCategory)
    ensures
        r@ == catalog_category_4(),
{
    let mut v: Vec<K8sResource> = Vec::new();
    v.push(resource("PersistentVolumes", "v1", "PersistentVolume", false, "Cluster-level storage resources"));
    v.push(resource("PersistentVolumeClaims", "v1", "PersistentVolumeClaim", true, "User requests for storage"));
    v.push(resource("StorageClasses", "storage.k8s.io/v1", "StorageClass", false, "Dynamic volume provisioning"));
    v.push(resource("CSIDrivers", "storage.k8s.io/v1", "CSIDriver", false, "Container Storage Interface drivers"));
    v.push(resource("CSINodes", "storage.k8s.io/v1", "CSINode", false, "Node-specific storage information"));
    let r = K8sResourceCategory { name: owned("Storage"), resources: v };
    assert(r@.resources =~= catalog_category_4().resources);
    r
}
fn category_5() -> (r: K8sResourceCategory)
    ensures
        r@ == catalog_category_5(),
{
    let mut v: Vec<K8sResource> = Vec::new();
    v.push(resource("Namespaces", "v1", "Namespace", false, "Virtual clusters within a cluster"));
    v.push(resource("Nodes", "v1", "Node", false, "Worker machines in the cluster"));
    v.push(resource("PriorityClasses", "scheduling.k8s.io/v1", "PriorityClass", false, "Pod scheduling priorities"));
    v.push(resource("RuntimeClasses", "node.k8s.io/v1", "RuntimeClass", false, "Container runtime configurations"));
    v.push(resource("ServiceAccounts", "v1", "ServiceAccount", true, "Identities for Pods and applications"));
    let r = K8sResourceCategory { name: owned("Cluster Administration"), resources: v };
    assert(r@.resources =~= catalog_category_5().resources);
    r
}
fn category_6() -> (r: K8sResourceCategory)
    ensures
        r@ == catalog_category_6(),
{
    let mut v: Vec<K8sResource> = Vec::new();
    v.push(resource("Roles", "rbac.authorization.k8s.io/v1", "Role", true, "Namespace-scoped permissions"));
    v.push(resource("ClusterRoles", "rbac.authorization.k8s.io/v1", "ClusterRole", false, "Cluster-wide permissions"));
    v.push(resource("RoleBindings", "rbac.authorization.k8s.io/v1", "RoleBinding", true, "Binds roles to users/groups"));
    v.push(resource("ClusterRoleBindings", "rbac.authorization.k8s.io/v1", "ClusterRoleBinding", false, "Binds cluster roles to users/groups"));
    v.push(resource("CertificateSigningRequests", "certificates.k8s.io/v1", "CertificateSigningRequest", false, "Certificate approval requests"));
    let r = K8sResourceCategory { name: owned("Security & Access Control"), resources: v };
    assert(r@.resources =~= catalog_category_6().resources);
    r
}
fn category_7() -> (r: K8sResourceCategory)
    ensures
        r@ == catalog_category_7(),
{
    let mut v: Vec<K8sResource> = Vec::new();
    v.push(resource("HorizontalPodAutoscalers", "autoscaling/v2", "HorizontalPodAutoscaler", true, "Automatic Pod scaling"));
    let r = K8sResourceCategory { name: owned("Scaling"), resources: v };
    assert(r@.resources =~= catalog_category_7().resources);
    r
}
fn category_8() -> (r: K8sResourceCategory)
    ensures
        r@ == catalog_category_8(),
{
    let mut v: Vec<K8sResource> = Vec::new();
    v.push(resource("CustomResourceDefinitions", "apiextensions.k8s.io/v1", "CustomResourceDefinition", false, "Extends Kubernetes API"));
    v.push(resource("APIServices", "apiregistration.k8s.io/v1", "APIService", false, "Registers API extensions"));
    let r = K8sResourceCategory { name: owned("Custom Resources"), resources: v };
    assert(r@.resources =~= catalog_category_8().resources);
    r
}

/// Every supported resource type, grouped into categories for display: the
/// commonly used ones first, then workloads, services and networking,
/// configuration, storage, cluster administration, security and access
/// control, scaling and custom resources.
pub fn get_resource_categories() -> (r: Vec<K8sResourceCategory>)
    ensures
        category_views(r@) == resource_catalog(),
{
    let mut r: Vec<K8sResourceCategory> = Vec::new();
    r.push(category_0());
    r.push(category_1());
    r.push(category_2());
    r.push(category_3());
    r.push(category_4());
    r.push(category_5());
    r.push(category_6());
    r.push(category_7());
    r.push(category_8());
    assert(category_views(r@) =~= resource_catalog());
    r
}

/// Whether the catalogue lists a resource of `kind` in `api_version` with
/// the given scope.
pub open spec fn catalog_lists(kind: Seq<char>, api_version: Seq<char>, namespaced: bool) -> bool {
    exists|c: int, i: int|
        0 <= c < resource_catalog().len() && 0 <= i < resource_catalog()[c].resources.len()
            && #[trigger] resource_catalog()[c].resources[i].kind == kind
            && resource_catalog()[c].resources[i].api_version == api_version
            && resource_catalog()[c].resources[i].namespaced == namespaced
}

/// Every supported resource type is in the catalogue: a resource of its
/// kind and API version, with its scope, stands in one of the categories.
#[verifier::spinoff_prover]
#[verifier::rlimit(100)]
pub proof fn lemma_supported_types_are_catalogued(t: Seq<char>)
    requires
        supported_types().contains(t),
    ensures
        find_row(t) matches Some(row) && catalog_lists(
            kind_and_api_version(t).0,
            kind_and_api_version(t).1,
            row.is_namespaced,
        ),
{
    lemma_scope_known_iff_supported(t);
    lemma_row_index(t);
    let j = row_index(t)->0;
    assert(0 <= j < resource_table().len());
    assert({
        let x = resource_table()[j];
        catalog_lists(x.kind, x.api_version, x.is_namespaced)
    }) by {
        if j == 0 {
            let x = resource_catalog()[1].resources[0];
            assert(x.kind == resource_table()[0].kind && x.api_version == resource_table()[0].api_version
                && x.namespaced == resource_table()[0].is_namespaced);
        } else if j == 1 {
            let x = resource_catalog()[1].resources[1];
            assert(x.kind == resource_table()[1].kind && x.api_version == resource_table()[1].api_version
                && x.namespaced == resource_table()[1].is_namespaced);
        } else if j == 2 {
            let x = resource_catalog()[1].resources[2];
            assert(x.kind == resource_table()[2].kind && x.api_version == resource_table()[2].api_version
                && x.namespaced == resource_table()[2].is_namespaced);
        } else if j == 3 {
            let x = resource_catalog()[1].resources[3];
            assert(x.kind == resource_table()[3].kind && x.api_version == resource_table()[3].api_version
                && x.namespaced == resource_table()[3].is_namespaced);
        } else if j == 4 {
            let x = resource_catalog()[1].resources[5];
            assert(x.kind == resource_table()[4].kind && x.api_version == resource_table()[4].api_version
                && x.namespaced == resource_table()[4].is_namespaced);
        } else if j == 5 {
            let x = resource_catalog()[1].resources[6];
            assert(x.kind == resource_table()[5].kind && x.api_version == resource_table()[5].api_version
                && x.namespaced == resource_table()[5].is_namespaced);
        } else if j == 6 {
            let x = resource_catalog()[1].resources[4];
            assert(x.kind == resource_table()[6].kind && x.api_version == resource_table()[6].api_version
                && x.namespaced == resource_table()[6].is_namespaced);
        } else if j == 7 {
            let x = resource_catalog()[1].resources[7];
            assert(x.kind == resource_table()[7].kind && x.api_version == resource_table()[7].api_version
                && x.namespaced == resource_table()[7].is_namespaced);
        } else if j == 8 {
            let x = resource_catalog()[2].resources[0];
            assert(x.kind == resource_table()[8].kind && x.api_version == resource_table()[8].api_version
                && x.namespaced == resource_table()[8].is_namespaced);
        } else if j == 9 {
            let x = resource_catalog()[2].resources[1];
            assert(x.kind == resource_table()[9].kind && x.api_version == resource_table()[9].api_version
                && x.namespaced == resource_table()[9].is_namespaced);
        } else if j == 10 {
            let x = resource_catalog()[2].resources[2];
            assert(x.kind == resource_table()[10].kind && x.api_version == resource_table()[10].api_version
                && x.namespaced == resource_table()[10].is_namespaced);
        } else if j == 11 {
            let x = resource_catalog()[2].resources[3];
            assert(x.kind == resource_table()[11].kind && x.api_version == resource_table()[11].api_version
                && x.namespaced == resource_table()[11].is_namespaced);
        } else if j == 12 {
            let x = resource_catalog()[2].resources[4];
            assert(x.kind == resource_table()[12].kind && x.api_version == resource_table()[12].api_version
                && x.namespaced == resource_table()[12].is_namespaced);
        } else if j == 13 {
            let x = resource_catalog()[2].resources[5];
            assert(x.kind == resource_table()[13].kind && x.api_version == resource_table()[13].api_version
                && x.namespaced == resource_table()[13].is_namespaced);
        } else if j == 14 {
            let x = resource_catalog()[3].resources[0];
            assert(x.kind == resource_table()[14].kind && x.api_version == resource_table()[14].api_version
                && x.namespaced == resource_table()[14].is_namespaced);
        } else if j == 15 {
            let x = resource_catalog()[3].resources[1];
            assert(x.kind == resource_table()[15].kind && x.api_version == resource_table()[15].api_version
                && x.namespaced == resource_table()[15].is_namespaced);
        } else if j == 16 {
            let x = resource_catalog()[4].resources[1];
            assert(x.kind == resource_table()[16].kind && x.api_version == resource_table()[16].api_version
                && x.namespaced == resource_table()[16].is_namespaced);
        } else if j == 17 {
            let x = resource_catalog()[4].resources[0];
            assert(x.kind == resource_table()[17].kind && x.api_version == resource_table()[17].api_version
                && x.namespaced == resource_table()[17].is_namespaced);
        } else if j == 18 {
            let x = resource_catalog()[4].resources[2];
            assert(x.kind == resource_table()[18].kind && x.api_version == resource_table()[18].api_version
                && x.namespaced == resource_table()[18].is_namespaced);
        } else if j == 19 {
            let x = resource_catalog()[4].resources[3];
            assert(x.kind == resource_table()[19].kind && x.api_version == resource_table()[19].api_version
                && x.namespaced == resource_table()[19].is_namespaced);
        } else if j == 20 {
            let x = resource_catalog()[4].resources[4];
            assert(x.kind == resource_table()[20].kind && x.api_version == resource_table()[20].api_version
                && x.namespaced == resource_table()[20].is_namespaced);
        } else if j == 21 {
            let x = resource_catalog()[5].resources[4];
            assert(x.kind == resource_table()[21].kind && x.api_version == resource_table()[21].api_version
                && x.namespaced == resource_table()[21].is_namespaced);
        } else if j == 22 {
            let x = resource_catalog()[3].resources[2];
            assert(x.kind == resource_table()[22].kind && x.api_version == resource_table()[22].api_version
                && x.namespaced == resource_table()[22].is_namespaced);
        } else if j == 23 {
            let x = resource_catalog()[3].resources[3];
            assert(x.kind == resource_table()[23].kind && x.api_version == resource_table()[23].api_version
                && x.namespaced == resource_table()[23].is_namespaced);
        } else if j == 24 {
            let x = resource_catalog()[3].resources[4];
            assert(x.kind == resource_table()[24].kind && x.api_version == resource_table()[24].api_version
                && x.namespaced == resource_table()[24].is_namespaced);
        } else if j == 25 {
            let x = resource_catalog()[5].resources[0];
            assert(x.kind == resource_table()[25].kind && x.api_version == resource_table()[25].api_version
                && x.namespaced == resource_table()[25].is_namespaced);
        } else if j == 26 {
            let x = resource_catalog()[5].resources[1];
            assert(x.kind == resource_table()[26].kind && x.api_version == resource_table()[26].api_version
                && x.namespaced == resource_table()[26].is_namespaced);
        } else if j == 27 {
            let x = resource_catalog()[5].resources[2];
            assert(x.kind == resource_table()[27].kind && x.api_version == resource_table()[27].api_version
                && x.namespaced == resource_table()[27].is_namespaced);
        } else if j == 28 {
            let x = resource_catalog()[5].resources[3];
            assert(x.kind == resource_table()[28].kind && x.api_version == resource_table()[28].api_version
                && x.namespaced == resource_table()[28].is_namespaced);
        } else if j == 29 {
            let x = resource_catalog()[6].resources[0];
            assert(x.kind == resource_table()[29].kind && x.api_version == resource_table()[29].api_version
                && x.namespaced == resource_table()[29].is_namespaced);
        } else if j == 30 {
            let x = resource_catalog()[6].resources[2];
            assert(x.kind == resource_table()[30].kind && x.api_version == resource_table()[30].api_version
                && x.namespaced == resource_table()[30].is_namespaced);
        } else if j == 31 {
            let x = resource_catalog()[6].resources[1];
            assert(x.kind == resource_table()[31].kind && x.api_version == resource_table()[31].api_version
                && x.namespaced == resource_table()[31].is_namespaced);
        } else if j == 32 {
            let x = resource_catalog()[6].resources[3];
            assert(x.kind == resource_table()[32].kind && x.api_version == resource_table()[32].api_version
                && x.namespaced == resource_table()[32].is_namespaced);
        } else if j == 33 {
            let x = resource_catalog()[6].resources[4];
            assert(x.kind == resource_table()[33].kind && x.api_version == resource_table()[33].api_version
                && x.namespaced == resource_table()[33].is_namespaced);
        } else if j == 34 {
            let x = resource_catalog()[7].resources[0];
            assert(x.kind == resource_table()[34].kind && x.api_version == resource_table()[34].api_version
                && x.namespaced == resource_table()[34].is_namespaced);
        } else if j == 35 {
            let x = resource_catalog()[8].resources[0];
            assert(x.kind == resource_table()[35].kind && x.api_version == resource_table()[35].api_version
                && x.namespaced == resource_table()[35].is_namespaced);
        } else if j == 36 {
            let x = resource_catalog()[8].resources[1];
            assert(x.kind == resource_table()[36].kind && x.api_version == resource_table()[36].api_version
                && x.namespaced == resource_table()[36].is_namespaced);
        }
    }
}

/// The position of a kind among the kinds of the resource table, or -1.
spec fn kind_position(k: Seq<char>) -> int {
    if k == "Pod"@ {
        0
    } else if k == "Deployment"@ {
        1
    } else if k == "StatefulSet"@ {
        2
    } else if k == "DaemonSet"@ {
        3
    } else if k == "Job"@ {
        4
    } else if k == "CronJob"@ {
        5
    } else if k == "ReplicaSet"@ {
        6
    } else if k == "ReplicationController"@ {
        7
    } else if k == "Service"@ {
        8
    } else if k == "Ingress"@ {
        9
    } else if k == "IngressClass"@ {
        10
    } else if k == "NetworkPolicy"@ {
        11
    } else if k == "EndpointSlice"@ {
        12
    } else if k == "Endpoints"@ {
        13
    } else if k == "ConfigMap"@ {
        14
    } else if k == "Secret"@ {
        15
    } else if k == "PersistentVolumeClaim"@ {
        16
    } else if k == "PersistentVolume"@ {
        17
    } else if k == "StorageClass"@ {
        18
    } else if k == "CSIDriver"@ {
        19
    } else if k == "CSINode"@ {
        20
    } else if k == "ServiceAccount"@ {
        21
    } else if k == "ResourceQuota"@ {
        22
    } else if k == "LimitRange"@ {
        23
    } else if k == "PodDisruptionBudget"@ {
        24
    } else if k == "Namespace"@ {
        25
    } else if k == "Node"@ {
        26
    } else if k == "PriorityClass"@ {
        27
    } else if k == "RuntimeClass"@ {
        28
    } else if k == "Role"@ {
        29
    } else if k == "RoleBinding"@ {
        30
    } else if k == "ClusterRole"@ {
        31
    } else if k == "ClusterRoleBinding"@ {
        32
    } else if k == "CertificateSigningRequest"@ {
        33
    } else if k == "HorizontalPodAutoscaler"@ {
        34
    } else if k == "CustomResourceDefinition"@ {
        35
    } else if k == "APIService"@ {
        36
    } else {
        -1
    }
}

/// The catalogue's entry for a kind.
spec fn catalog_entry_of(k: Seq<char>) -> ResourceView {
    if k == "Pod"@ {
        ResourceView { name: "Pods"@, api_version: "v1"@, kind: "Pod"@, namespaced: true, description: "Smallest deployable units in Kubernetes"@ }
    } else if k == "Deployment"@ {
        ResourceView { name: "Deployments"@, api_version: "apps/v1"@, kind: "Deployment"@, namespaced: true, description: "Manages ReplicaSets and provides declarative updates to Pods"@ }
    } else if k == "StatefulSet"@ {
        ResourceView { name: "StatefulSets"@, api_version: "apps/v1"@, kind: "StatefulSet"@, namespaced: true, description: "Manages stateful applications with persistent storage"@ }
    } else if k == "DaemonSet"@ {
        ResourceView { name: "DaemonSets"@, api_version: "apps/v1"@, kind: "DaemonSet"@, namespaced: true, description: "Ensures all nodes run a copy of a Pod"@ }
    } else if k == "Job"@ {
        ResourceView { name: "Jobs"@, api_version: "batch/v1"@, kind: "Job"@, namespaced: true, description: "Creates one or more Pods and ensures successful completion"@ }
    } else if k == "CronJob"@ {
        ResourceView { name: "CronJobs"@, api_version: "batch/v1"@, kind: "CronJob"@, namespaced: true, description: "Creates Jobs on a schedule"@ }
    } else if k == "ReplicaSet"@ {
        ResourceView { name: "ReplicaSets"@, api_version: "apps/v1"@, kind: "ReplicaSet"@, namespaced: true, description: "Maintains a stable set of replica Pods"@ }
    } else if k == "ReplicationController"@ {
        ResourceView { name: "ReplicationControllers"@, api_version: "v1"@, kind: "ReplicationController"@, namespaced: true, description: "Legacy replica management (deprecated)"@ }
    } else if k == "Service"@ {
        ResourceView { name: "Services"@, api_version: "v1"@, kind: "Service"@, namespaced: true, description: "Exposes applications running on Pods"@ }
    } else if k == "Ingress"@ {
        ResourceView { name: "Ingresses"@, api_version: "networking.k8s.io/v1"@, kind: "Ingress"@, namespaced: true, description: "Manages external access to services"@ }
    } else if k == "IngressClass"@ {
        ResourceView { name: "IngressClasses"@, api_version: "networking.k8s.io/v1"@, kind: "IngressClass"@, namespaced: false, description: "Defines ingress controller configuration"@ }
    } else if k == "NetworkPolicy"@ {
        ResourceView { name: "NetworkPolicies"@, api_version: "networking.k8s.io/v1"@, kind: "NetworkPolicy"@, namespaced: true, description: "Controls traffic flow between Pods"@ }
    } else if k == "EndpointSlice"@ {
        ResourceView { name: "EndpointSlices"@, api_version: "discovery.k8s.io/v1"@, kind: "EndpointSlice"@, namespaced: true, description: "Scalable tracking of network endpoints"@ }
    } else if k == "Endpoints"@ {
        ResourceView { name: "Endpoints"@, api_version: "v1"@, kind: "Endpoints"@, namespaced: true, description: "Legacy endpoint tracking"@ }
    } else if k == "ConfigMap"@ {
        ResourceView { name: "ConfigMaps"@, api_version: "v1"@, kind: "ConfigMap"@, namespaced: true, description: "Stores non-confidential configuration data"@ }
    } else if k == "Secret"@ {
        ResourceView { name: "Secrets"@, api_version: "v1"@, kind: "Secret"@, namespaced: true, description: "Stores sensitive data like passwords and keys"@ }
    } else if k == "PersistentVolumeClaim"@ {
        ResourceView { name: "PersistentVolumeClaims"@, api_version: "v1"@, kind: "PersistentVolumeClaim"@, namespaced: true, description: "User requests for storage"@ }
    } else if k == "PersistentVolume"@ {
        ResourceView { name: "PersistentVolumes"@, api_version: "v1"@, kind: "PersistentVolume"@, namespaced: false, description: "Cluster-level storage resources"@ }
    } else if k == "StorageClass"@ {
        ResourceView { name: "StorageClasses"@, api_version: "storage.k8s.io/v1"@, kind: "StorageClass"@, namespaced: false, description: "Dynamic volume provisioning"@ }
    } else if k == "CSIDriver"@ {
        ResourceView { name: "CSIDrivers"@, api_version: "storage.k8s.io/v1"@, kind: "CSIDriver"@, namespaced: false, description: "Container Storage Interface drivers"@ }
    } else if k == "CSINode"@ {
        ResourceView { name: "CSINodes"@, api_version: "storage.k8s.io/v1"@, kind: "CSINode"@, namespaced: false, description: "Node-specific storage information"@ }
    } else if k == "ServiceAccount"@ {
        ResourceView { name: "ServiceAccounts"@, api_version: "v1"@, kind: "ServiceAccount"@, namespaced: true, description: "Identities for Pods and applications"@ }
    } else if k == "ResourceQuota"@ {
        ResourceView { name: "ResourceQuotas"@, api_version: "v1"@, kind: "ResourceQuota"@, namespaced: true, description: "Resource usage limits per namespace"@ }
    } else if k == "LimitRange"@ {
        ResourceView { name: "LimitRanges"@, api_version: "v1"@, kind: "LimitRange"@, namespaced: true, description: "Min/max resource constraints for pods and containers"@ }
    } else if k == "PodDisruptionBudget"@ {
        ResourceView { name: "PodDisruptionBudgets"@, api_version: "policy/v1"@, kind: "PodDisruptionBudget"@, namespaced: true, description: "Limits on voluntary disruptions during maintenance"@ }
    } else if k == "Namespace"@ {
        ResourceView { name: "Namespaces"@, api_version: "v1"@, kind: "Namespace"@, namespaced: false, description: "Virtual clusters within a cluster"@ }
    } else if k == "Node"@ {
        ResourceView { name: "Nodes"@, api_version: "v1"@, kind: "Node"@, namespaced: false, description: "Worker machines in the cluster"@ }
    } else if k == "PriorityClass"@ {
        ResourceView { name: "PriorityClasses"@, api_version: "scheduling.k8s.io/v1"@, kind: "PriorityClass"@, namespaced: false, description: "Pod scheduling priorities"@ }
    } else if k == "RuntimeClass"@ {
        ResourceView { name: "RuntimeClasses"@, api_version: "node.k8s.io/v1"@, kind: "RuntimeClass"@, namespaced: false, description: "Container runtime configurations"@ }
    } else if k == "Role"@ {
        ResourceView { name: "Roles"@, api_version: "rbac.authorization.k8s.io/v1"@, kind: "Role"@, namespaced: true, description: "Namespace-scoped permissions"@ }
    } else if k == "RoleBinding"@ {
        ResourceView { name: "RoleBindings"@, api_version: "rbac.authorization.k8s.io/v1"@, kind: "RoleBinding"@, namespaced: true, description: "Binds roles to users/groups"@ }
    } else if k == "ClusterRole"@ {
        ResourceView { name: "ClusterRoles"@, api_version: "rbac.authorization.k8s.io/v1"@, kind: "ClusterRole"@, namespaced: false, description: "Cluster-wide permissions"@ }
    } else if k == "ClusterRoleBinding"@ {
        ResourceView { name: "ClusterRoleBindings"@, api_version: "rbac.authorization.k8s.io/v1"@, kind: "ClusterRoleBinding"@, namespaced: false, description: "Binds cluster roles to users/groups"@ }
    } else if k == "CertificateSigningRequest"@ {
        ResourceView { name: "CertificateSigningRequests"@, api_version: "certificates.k8s.io/v1"@, kind: "CertificateSigningRequest"@, namespaced: false, description: "Certificate approval requests"@ }
    } else if k == "HorizontalPodAutoscaler"@ {
        ResourceView { name: "HorizontalPodAutoscalers"@, api_version: "autoscaling/v2"@, kind: "HorizontalPodAutoscaler"@, namespaced: true, description: "Automatic Pod scaling"@ }
    } else if k == "CustomResourceDefinition"@ {
        ResourceView { name: "CustomResourceDefinitions"@, api_version: "apiextensions.k8s.io/v1"@, kind: "CustomResourceDefinition"@, namespaced: false, description: "Extends Kubernetes API"@ }
    } else if k == "APIService"@ {
        ResourceView { name: "APIServices"@, api_version: "apiregistration.k8s.io/v1"@, kind: "APIService"@, namespaced: false, description: "Registers API extensions"@ }
    } else {
        ResourceView { name: k, api_version: k, kind: k, namespaced: false, description: k }
    }
}

/// The resource table gives each kind to one resource type only.
#[verifier::spinoff_prover]
#[verifier::rlimit(100)]
proof fn lemma_table_kinds_distinct()
    ensures
        forall|i: int|
            0 <= i < resource_table().len() ==> kind_position(#[trigger] resource_table()[i].kind)
                == i,
{
    reveal_strlit("Pod");
    reveal_strlit("Deployment");
    reveal_strlit("StatefulSet");
    reveal_strlit("DaemonSet");
    reveal_strlit("Job");
    reveal_strlit("CronJob");
    reveal_strlit("ReplicaSet");
    reveal_strlit("ReplicationController");
    reveal_strlit("Service");
    reveal_strlit("Ingress");
    reveal_strlit("IngressClass");
    reveal_strlit("NetworkPolicy");
    reveal_strlit("EndpointSlice");
    reveal_strlit("Endpoints");
    reveal_strlit("ConfigMap");
    reveal_strlit("Secret");
    reveal_strlit("PersistentVolumeClaim");
    reveal_strlit("PersistentVolume");
    reveal_strlit("StorageClass");
    reveal_strlit("CSIDriver");
    reveal_strlit("CSINode");
    reveal_strlit("ServiceAccount");
    reveal_strlit("ResourceQuota");
    reveal_strlit("LimitRange");
    reveal_strlit("PodDisruptionBudget");
    reveal_strlit("Namespace");
    reveal_strlit("Node");
    reveal_strlit("PriorityClass");
    reveal_strlit("RuntimeClass");
    reveal_strlit("Role");
    reveal_strlit("RoleBinding");
    reveal_strlit("ClusterRole");
    reveal_strlit("ClusterRoleBinding");
    reveal_strlit("CertificateSigningRequest");
    reveal_strlit("HorizontalPodAutoscaler");
    reveal_strlit("CustomResourceDefinition");
    reveal_strlit("APIService");
    assert("Pod"@.len() == 3);
    assert("Deployment"@.len() == 10);
    assert("StatefulSet"@.len() == 11);
    assert("DaemonSet"@.len() == 9);
    assert("Job"@.len() == 3);
    assert("CronJob"@.len() == 7);
    assert("ReplicaSet"@.len() == 10);
    assert("ReplicationController"@.len() == 21);
    assert("Service"@.len() == 7);
    assert("Ingress"@.len() == 7);
    assert("IngressClass"@.len() == 12);
    assert("NetworkPolicy"@.len() == 13);
    assert("EndpointSlice"@.len() == 13);
    assert("Endpoints"@.len() == 9);
    assert("ConfigMap"@.len() == 9);
    assert("Secret"@.len() == 6);
    assert("PersistentVolumeClaim"@.len() == 21);
    assert("PersistentVolume"@.len() == 16);
    assert("StorageClass"@.len() == 12);
    assert("CSIDriver"@.len() == 9);
    assert("CSINode"@.len() == 7);
    assert("ServiceAccount"@.len() == 14);
    assert("ResourceQuota"@.len() == 13);
    assert("LimitRange"@.len() == 10);
    assert("PodDisruptionBudget"@.len() == 19);
    assert("Namespace"@.len() == 9);
    assert("Node"@.len() == 4);
    assert("PriorityClass"@.len() == 13);
    assert("RuntimeClass"@.len() == 12);
    assert("Role"@.len() == 4);
    assert("RoleBinding"@.len() == 11);
    assert("ClusterRole"@.len() == 11);
    assert("ClusterRoleBinding"@.len() == 18);
    assert("CertificateSigningRequest"@.len() == 25);
    assert("HorizontalPodAutoscaler"@.len() == 23);
    assert("CustomResourceDefinition"@.len() == 24);
    assert("APIService"@.len() == 10);
    assert("Pod"@[0] != "Job"@[0]);
    assert("Deployment"@[0] != "ReplicaSet"@[0]);
    assert("Deployment"@[0] != "LimitRange"@[0]);
    assert("Deployment"@[0] != "APIService"@[0]);
    assert("StatefulSet"@[0] != "RoleBinding"@[0]);
    assert("StatefulSet"@[0] != "ClusterRole"@[0]);
    assert("DaemonSet"@[0] != "Endpoints"@[0]);
    assert("DaemonSet"@[0] != "ConfigMap"@[0]);
    assert("DaemonSet"@[0] != "CSIDriver"@[0]);
    assert("DaemonSet"@[0] != "Namespace"@[0]);
    assert("CronJob"@[0] != "Service"@[0]);
    assert("CronJob"@[0] != "Ingress"@[0]);
    assert("CronJob"@[1] != "CSINode"@[1]);
    assert("ReplicaSet"@[0] != "LimitRange"@[0]);
    assert("ReplicaSet"@[0] != "APIService"@[0]);
    assert("ReplicationController"@[0] != "PersistentVolumeClaim"@[0]);
    assert("Service"@[0] != "Ingress"@[0]);
    assert("Service"@[0] != "CSINode"@[0]);
    assert("Ingress"@[0] != "CSINode"@[0]);
    assert("IngressClass"@[0] != "StorageClass"@[0]);
    assert("IngressClass"@[0] != "RuntimeClass"@[0]);
    assert("NetworkPolicy"@[0] != "EndpointSlice"@[0]);
    assert("NetworkPolicy"@[0] != "ResourceQuota"@[0]);
    assert("NetworkPolicy"@[0] != "PriorityClass"@[0]);
    assert("EndpointSlice"@[0] != "ResourceQuota"@[0]);
    assert("EndpointSlice"@[0] != "PriorityClass"@[0]);
    assert("Endpoints"@[0] != "ConfigMap"@[0]);
    assert("Endpoints"@[0] != "CSIDriver"@[0]);
    assert("Endpoints"@[0] != "Namespace"@[0]);
    assert("ConfigMap"@[1] != "CSIDriver"@[1]);
    assert("ConfigMap"@[0] != "Namespace"@[0]);
    assert("StorageClass"@[0] != "RuntimeClass"@[0]);
    assert("CSIDriver"@[0] != "Namespace"@[0]);
    assert("ResourceQuota"@[0] != "PriorityClass"@[0]);
    assert("LimitRange"@[0] != "APIService"@[0]);
    assert("Node"@[0] != "Role"@[0]);
    assert("RoleBinding"@[0] != "ClusterRole"@[0]);
    assert forall|i: int| 0 <= i < resource_table().len() implies kind_position(
        #[trigger] resource_table()[i].kind,
    ) == i by {
        if i == 0 {
            assert(resource_table()[0].kind == "Pod"@);
        } else if i == 1 {
            assert(resource_table()[1].kind == "Deployment"@);
        } else if i == 2 {
            assert(resource_table()[2].kind == "StatefulSet"@);
        } else if i == 3 {
            assert(resource_table()[3].kind == "DaemonSet"@);
        } else if i == 4 {
            assert(resource_table()[4].kind == "Job"@);
        } else if i == 5 {
            assert(resource_table()[5].kind == "CronJob"@);
        } else if i == 6 {
            assert(resource_table()[6].kind == "ReplicaSet"@);
        } else if i == 7 {
            assert(resource_table()[7].kind == "ReplicationController"@);
        } else if i == 8 {
            assert(resource_table()[8].kind == "Service"@);
        } else if i == 9 {
            assert(resource_table()[9].kind == "Ingress"@);
        } else if i == 10 {
            assert(resource_table()[10].kind == "IngressClass"@);
        } else if i == 11 {
            assert(resource_table()[11].kind == "NetworkPolicy"@);
        } else if i == 12 {
            assert(resource_table()[12].kind == "EndpointSlice"@);
        } else if i == 13 {
            assert(resource_table()[13].kind == "Endpoints"@);
        } else if i == 14 {
            assert(resource_table()[14].kind == "ConfigMap"@);
        } else if i == 15 {
            assert(resource_table()[15].kind == "Secret"@);
        } else if i == 16 {
            assert(resource_table()[16].kind == "PersistentVolumeClaim"@);
        } else if i == 17 {
            assert(resource_table()[17].kind == "PersistentVolume"@);
        } else if i == 18 {
            assert(resource_table()[18].kind == "StorageClass"@);
        } else if i == 19 {
            assert(resource_table()[19].kind == "CSIDriver"@);
        } else if i == 20 {
            assert(resource_table()[20].kind == "CSINode"@);
        } else if i == 21 {
            assert(resource_table()[21].kind == "ServiceAccount"@);
        } else if i == 22 {
            assert(resource_table()[22].kind == "ResourceQuota"@);
        } else if i == 23 {
            assert(resource_table()[23].kind == "LimitRange"@);
        } else if i == 24 {
            assert(resource_table()[24].kind == "PodDisruptionBudget"@);
        } else if i == 25 {
            assert(resource_table()[25].kind == "Namespace"@);
        } else if i == 26 {
            assert(resource_table()[26].kind == "Node"@);
        } else if i == 27 {
            assert(resource_table()[27].kind == "PriorityClass"@);
        } else if i == 28 {
            assert(resource_table()[28].kind == "RuntimeClass"@);
        } else if i == 29 {
            assert(resource_table()[29].kind == "Role"@);
        } else if i == 30 {
            assert(resource_table()[30].kind == "RoleBinding"@);
        } else if i == 31 {
            assert(resource_table()[31].kind == "ClusterRole"@);
        } else if i == 32 {
            assert(resource_table()[32].kind == "ClusterRoleBinding"@);
        } else if i == 33 {
            assert(resource_table()[33].kind == "CertificateSigningRequest"@);
        } else if i == 34 {
            assert(resource_table()[34].kind == "HorizontalPodAutoscaler"@);
        } else if i == 35 {
            assert(resource_table()[35].kind == "CustomResourceDefinition"@);
        } else if i == 36 {
            assert(resource_table()[36].kind == "APIService"@);
        }
    }
}

/// Every entry of the catalogue is the entry for its kind, and its kind is
/// a kind of the resource table.
#[verifier::spinoff_prover]
#[verifier::rlimit(100)]
proof fn lemma_catalog_entries_canonical()
    ensures
        forall|c: int, i: int|
            0 <= c < resource_catalog().len() && 0 <= i < resource_catalog()[c].resources.len()
                ==> #[trigger] resource_catalog()[c].resources[i] == catalog_entry_of(
                resource_catalog()[c].resources[i].kind,
            ) && 0 <= kind_position(resource_catalog()[c].resources[i].kind),
{
    reveal_strlit("Pod");
    reveal_strlit("Deployment");
    reveal_strlit("StatefulSet");
    reveal_strlit("DaemonSet");
    reveal_strlit("Job");
    reveal_strlit("CronJob");
    reveal_strlit("ReplicaSet");
    reveal_strlit("ReplicationController");
    reveal_strlit("Service");
    reveal_strlit("Ingress");
    reveal_strlit("IngressClass");
    reveal_strlit("NetworkPolicy");
    reveal_strlit("EndpointSlice");
    reveal_strlit("Endpoints");
    reveal_strlit("ConfigMap");
    reveal_strlit("Secret");
    reveal_strlit("PersistentVolumeClaim");
    reveal_strlit("PersistentVolume");
    reveal_strlit("StorageClass");
    reveal_strlit("CSIDriver");
    reveal_strlit("CSINode");
    reveal_strlit("ServiceAccount");
    reveal_strlit("ResourceQuota");
    reveal_strlit("LimitRange");
    reveal_strlit("PodDisruptionBudget");
    reveal_strlit("Namespace");
    reveal_strlit("Node");
    reveal_strlit("PriorityClass");
    reveal_strlit("RuntimeClass");
    reveal_strlit("Role");
    reveal_strlit("RoleBinding");
    reveal_strlit("ClusterRole");
    reveal_strlit("ClusterRoleBinding");
    reveal_strlit("CertificateSigningRequest");
    reveal_strlit("HorizontalPodAutoscaler");
    reveal_strlit("CustomResourceDefinition");
    reveal_strlit("APIService");
    assert("Pod"@.len() == 3);
    assert("Deployment"@.len() == 10);
    assert("StatefulSet"@.len() == 11);
    assert("DaemonSet"@.len() == 9);
    assert("Job"@.len() == 3);
    assert("CronJob"@.len() == 7);
    assert("ReplicaSet"@.len() == 10);
    assert("ReplicationController"@.len() == 21);
    assert("Service"@.len() == 7);
    assert("Ingress"@.len() == 7);
    assert("IngressClass"@.len() == 12);
    assert("NetworkPolicy"@.len() == 13);
    assert("EndpointSlice"@.len() == 13);
    assert("Endpoints"@.len() == 9);
    assert("ConfigMap"@.len() == 9);
    assert("Secret"@.len() == 6);
    assert("PersistentVolumeClaim"@.len() == 21);
    assert("PersistentVolume"@.len() == 16);
    assert("StorageClass"@.len() == 12);
    assert("CSIDriver"@.len() == 9);
    assert("CSINode"@.len() == 7);
    assert("ServiceAccount"@.len() == 14);
    assert("ResourceQuota"@.len() == 13);
    assert("LimitRange"@.len() == 10);
    assert("PodDisruptionBudget"@.len() == 19);
    assert("Namespace"@.len() == 9);
    assert("Node"@.len() == 4);
    assert("PriorityClass"@.len() == 13);
    assert("RuntimeClass"@.len() == 12);
    assert("Role"@.len() == 4);
    assert("RoleBinding"@.len() == 11);
    assert("ClusterRole"@.len() == 11);
    assert("ClusterRoleBinding"@.len() == 18);
    assert("CertificateSigningRequest"@.len() == 25);
    assert("HorizontalPodAutoscaler"@.len() == 23);
    assert("CustomResourceDefinition"@.len() == 24);
    assert("APIService"@.len() == 10);
    assert("Pod"@[0] != "Job"@[0]);
    assert("Deployment"@[0] != "ReplicaSet"@[0]);
    assert("Deployment"@[0] != "LimitRange"@[0]);
    assert("Deployment"@[0] != "APIService"@[0]);
    assert("StatefulSet"@[0] != "RoleBinding"@[0]);
    assert("StatefulSet"@[0] != "ClusterRole"@[0]);
    assert("DaemonSet"@[0] != "Endpoints"@[0]);
    assert("DaemonSet"@[0] != "ConfigMap"@[0]);
    assert("DaemonSet"@[0] != "CSIDriver"@[0]);
    assert("DaemonSet"@[0] != "Namespace"@[0]);
    assert("CronJob"@[0] != "Service"@[0]);
    assert("CronJob"@[0] != "Ingress"@[0]);
    assert("CronJob"@[1] != "CSINode"@[1]);
    assert("ReplicaSet"@[0] != "LimitRange"@[0]);
    assert("ReplicaSet"@[0] != "APIService"@[0]);
    assert("ReplicationController"@[0] != "PersistentVolumeClaim"@[0]);
    assert("Service"@[0] != "Ingress"@[0]);
    assert("Service"@[0] != "CSINode"@[0]);
    assert("Ingress"@[0] != "CSINode"@[0]);
    assert("IngressClass"@[0] != "StorageClass"@[0]);
    assert("IngressClass"@[0] != "RuntimeClass"@[0]);
    assert("NetworkPolicy"@[0] != "EndpointSlice"@[0]);
    assert("NetworkPolicy"@[0] != "ResourceQuota"@[0]);
    assert("NetworkPolicy"@[0] != "PriorityClass"@[0]);
    assert("EndpointSlice"@[0] != "ResourceQuota"@[0]);
    assert("EndpointSlice"@[0] != "PriorityClass"@[0]);
    assert("Endpoints"@[0] != "ConfigMap"@[0]);
    assert("Endpoints"@[0] != "CSIDriver"@[0]);
    assert("Endpoints"@[0] != "Namespace"@[0]);
    assert("ConfigMap"@[1] != "CSIDriver"@[1]);
    assert("ConfigMap"@[0] != "Namespace"@[0]);
    assert("StorageClass"@[0] != "RuntimeClass"@[0]);
    assert("CSIDriver"@[0] != "Namespace"@[0]);
    assert("ResourceQuota"@[0] != "PriorityClass"@[0]);
    assert("LimitRange"@[0] != "APIService"@[0]);
    assert("Node"@[0] != "Role"@[0]);
    assert("RoleBinding"@[0] != "ClusterRole"@[0]);
    assert forall|c: int, i: int|
        0 <= c < resource_catalog().len() && 0 <= i < resource_catalog()[
            c
        ].resources.len() implies #[trigger] resource_catalog()[c].resources[i] == catalog_entry_of(
        resource_catalog()[c].resources[i].kind,
    ) && 0 <= kind_position(resource_catalog()[c].resources[i].kind) by {
        if c == 0 && i == 0 {
            assert(resource_catalog()[0].resources[0].kind == "Pod"@);
        } else if c == 0 && i == 1 {
            assert(resource_catalog()[0].resources[1].kind == "Deployment"@);
        } else if c == 0 && i == 2 {
            assert(resource_catalog()[0].resources[2].kind == "StatefulSet"@);
        } else if c == 0 && i == 3 {
            assert(resource_catalog()[0].resources[3].kind == "CronJob"@);
        } else if c == 0 && i == 4 {
            assert(resource_catalog()[0].resources[4].kind == "Service"@);
        } else if c == 0 && i == 5 {
            assert(resource_catalog()[0].resources[5].kind == "Ingress"@);
        } else if c == 0 && i == 6 {
            assert(resource_catalog()[0].resources[6].kind == "ConfigMap"@);
        } else if c == 0 && i == 7 {
            assert(resource_catalog()[0].resources[7].kind == "Secret"@);
        } else if c == 0 && i == 8 {
            assert(resource_catalog()[0].resources[8].kind == "PersistentVolume"@);
        } else if c == 0 && i == 9 {
            assert(resource_catalog()[0].resources[9].kind == "PersistentVolumeClaim"@);
        } else if c == 0 && i == 10 {
            assert(resource_catalog()[0].resources[10].kind == "StorageClass"@);
        } else if c == 0 && i == 11 {
            assert(resource_catalog()[0].resources[11].kind == "Namespace"@);
        } else if c == 0 && i == 12 {
            assert(resource_catalog()[0].resources[12].kind == "Node"@);
        } else if c == 1 && i == 0 {
            assert(resource_catalog()[1].resources[0].kind == "Pod"@);
        } else if c == 1 && i == 1 {
            assert(resource_catalog()[1].resources[1].kind == "Deployment"@);
        } else if c == 1 && i == 2 {
            assert(resource_catalog()[1].resources[2].kind == "StatefulSet"@);
        } else if c == 1 && i == 3 {
            assert(resource_catalog()[1].resources[3].kind == "DaemonSet"@);
        } else if c == 1 && i == 4 {
            assert(resource_catalog()[1].resources[4].kind == "ReplicaSet"@);
        } else if c == 1 && i == 5 {
            assert(resource_catalog()[1].resources[5].kind == "Job"@);
        } else if c == 1 && i == 6 {
            assert(resource_catalog()[1].resources[6].kind == "CronJob"@);
        } else if c == 1 && i == 7 {
            assert(resource_catalog()[1].resources[7].kind == "ReplicationController"@);
        } else if c == 2 && i == 0 {
            assert(resource_catalog()[2].resources[0].kind == "Service"@);
        } else if c == 2 && i == 1 {
            assert(resource_catalog()[2].resources[1].kind == "Ingress"@);
        } else if c == 2 && i == 2 {
            assert(resource_catalog()[2].resources[2].kind == "IngressClass"@);
        } else if c == 2 && i == 3 {
            assert(resource_catalog()[2].resources[3].kind == "NetworkPolicy"@);
        } else if c == 2 && i == 4 {
            assert(resource_catalog()[2].resources[4].kind == "EndpointSlice"@);
        } else if c == 2 && i == 5 {
            assert(resource_catalog()[2].resources[5].kind == "Endpoints"@);
        } else if c == 3 && i == 0 {
            assert(resource_catalog()[3].resources[0].kind == "ConfigMap"@);
        } else if c == 3 && i == 1 {
            assert(resource_catalog()[3].resources[1].kind == "Secret"@);
        } else if c == 3 && i == 2 {
            assert(resource_catalog()[3].resources[2].kind == "ResourceQuota"@);
        } else if c == 3 && i == 3 {
            assert(resource_catalog()[3].resources[3].kind == "LimitRange"@);
        } else if c == 3 && i == 4 {
            assert(resource_catalog()[3].resources[4].kind == "PodDisruptionBudget"@);
        } else if c == 4 && i == 0 {
            assert(resource_catalog()[4].resources[0].kind == "PersistentVolume"@);
        } else if c == 4 && i == 1 {
            assert(resource_catalog()[4].resources[1].kind == "PersistentVolumeClaim"@);
        } else if c == 4 && i == 2 {
            assert(resource_catalog()[4].resources[2].kind == "StorageClass"@);
        } else if c == 4 && i == 3 {
            assert(resource_catalog()[4].resources[3].kind == "CSIDriver"@);
        } else if c == 4 && i == 4 {
            assert(resource_catalog()[4].resources[4].kind == "CSINode"@);
        } else if c == 5 && i == 0 {
            assert(resource_catalog()[5].resources[0].kind == "Namespace"@);
        } else if c == 5 && i == 1 {
            assert(resource_catalog()[5].resources[1].kind == "Node"@);
        } else if c == 5 && i == 2 {
            assert(resource_catalog()[5].resources[2].kind == "PriorityClass"@);
        } else if c == 5 && i == 3 {
            assert(resource_catalog()[5].resources[3].kind == "RuntimeClass"@);
        } else if c == 5 && i == 4 {
            assert(resource_catalog()[5].resources[4].kind == "ServiceAccount"@);
        } else if c == 6 && i == 0 {
            assert(resource_catalog()[6].resources[0].kind == "Role"@);
        } else if c == 6 && i == 1 {
            assert(resource_catalog()[6].resources[1].kind == "ClusterRole"@);
        } else if c == 6 && i == 2 {
            assert(resource_catalog()[6].resources[2].kind == "RoleBinding"@);
        } else if c == 6 && i == 3 {
            assert(resource_catalog()[6].resources[3].kind == "ClusterRoleBinding"@);
        } else if c == 6 && i == 4 {
            assert(resource_catalog()[6].resources[4].kind == "CertificateSigningRequest"@);
        } else if c == 7 && i == 0 {
            assert(resource_catalog()[7].resources[0].kind == "HorizontalPodAutoscaler"@);
        } else if c == 8 && i == 0 {
            assert(resource_catalog()[8].resources[0].kind == "CustomResourceDefinition"@);
        } else if c == 8 && i == 1 {
            assert(resource_catalog()[8].resources[1].kind == "APIService"@);
        }
    }
}

/// The kinds that the catalogue lists.
pub open spec fn catalog_kinds() -> Set<Seq<char>> {
    Set::new(
        |k: Seq<char>|
            exists|c: int, i: int|
                0 <= c < resource_catalog().len() && 0 <= i < resource_catalog()[c].resources.len()
                    && #[trigger] resource_catalog()[c].resources[i].kind == k,
    )
}

/// Two entries of the catalogue with the same kind are the same entry:
/// a resource shown in two categories is shown alike in both.
pub proof fn lemma_catalog_kind_determines_entry(c1: int, i1: int, c2: int, i2: int)
    requires
        0 <= c1 < resource_catalog().len(),
        0 <= i1 < resource_catalog()[c1].resources.len(),
        0 <= c2 < resource_catalog().len(),
        0 <= i2 < resource_catalog()[c2].resources.len(),
        resource_catalog()[c1].resources[i1].kind == resource_catalog()[c2].resources[i2].kind,
    ensures
        resource_catalog()[c1].resources[i1] == resource_catalog()[c2].resources[i2],
{
    lemma_catalog_entries_canonical();
    assert(resource_catalog()[c1].resources[i1] == catalog_entry_of(resource_catalog()[c1].resources[i1].kind));
    assert(resource_catalog()[c2].resources[i2] == catalog_entry_of(resource_catalog()[c2].resources[i2].kind));
}

/// The catalogue lists 37 kinds: exactly the kinds of the supported
/// resource types, one for each.
pub proof fn lemma_catalog_kind_count()
    ensures
        catalog_kinds() == resource_table().map_values(|row: ResourceRow| row.kind).to_set(),
        catalog_kinds().len() == 37,
{
    lemma_table_kinds_distinct();
    lemma_catalog_entries_canonical();
    let ks = resource_table().map_values(|row: ResourceRow| row.kind);
    assert forall|k: Seq<char>| catalog_kinds().contains(k) implies ks.to_set().contains(k) by {
        let (c, i) = choose|c: int, i: int|
            0 <= c < resource_catalog().len() && 0 <= i < resource_catalog()[c].resources.len()
                && #[trigger] resource_catalog()[c].resources[i].kind == k;
        let p = kind_position(k);
        assert(0 <= p);
        lemma_kind_position_names(k);
        assert(ks[p] == k);
    }
    assert forall|k: Seq<char>| ks.to_set().contains(k) implies catalog_kinds().contains(k) by {
        let j = choose|j: int| 0 <= j < ks.len() && ks[j] == k;
        let t = resource_table()[j].resource_type;
        assert(supported_types()[j] == t);
        lemma_supported_types_are_catalogued(t);
        lemma_row_index(t);
        crate::k8s::catalog::lemma_types_distinct();
        let i = row_index(t)->0;
        if i != j {
            if i < j {
                assert(resource_table()[i].resource_type != resource_table()[j].resource_type);
            } else {
                assert(resource_table()[j].resource_type != resource_table()[i].resource_type);
            }
        }
        assert(kind_and_api_version(t).0 == k);
        let (c, x) = choose|c: int, x: int|
            0 <= c < resource_catalog().len() && 0 <= x < resource_catalog()[c].resources.len()
                && #[trigger] resource_catalog()[c].resources[x].kind == k
                && resource_catalog()[c].resources[x].api_version == kind_and_api_version(t).1
                && resource_catalog()[c].resources[x].namespaced == resource_table()[j].is_namespaced;
    }
    assert(catalog_kinds() =~= ks.to_set());
    assert forall|a: int, b: int| 0 <= a < b < ks.len() implies ks[a] != ks[b] by {
        assert(kind_position(resource_table()[a].kind) == a);
        assert(kind_position(resource_table()[b].kind) == b);
    }
    ks.unique_seq_to_set();
}

/// A kind that has a position is the kind of the row at that position.
proof fn lemma_kind_position_names(k: Seq<char>)
    requires
        0 <= kind_position(k),
    ensures
        kind_position(k) < resource_table().len(),
        resource_table()[kind_position(k)].kind == k,
{
    lemma_table_kinds_distinct();
    if k == "Pod"@ { assert(resource_table()[0].kind == "Pod"@); }
    if k == "Deployment"@ { assert(resource_table()[1].kind == "Deployment"@); }
    if k == "StatefulSet"@ { assert(resource_table()[2].kind == "StatefulSet"@); }
    if k == "DaemonSet"@ { assert(resource_table()[3].kind == "DaemonSet"@); }
    if k == "Job"@ { assert(resource_table()[4].kind == "Job"@); }
    if k == "CronJob"@ { assert(resource_table()[5].kind == "CronJob"@); }
    if k == "ReplicaSet"@ { assert(resource_table()[6].kind == "ReplicaSet"@); }
    if k == "ReplicationController"@ { assert(resource_table()[7].kind == "ReplicationController"@); }
    if k == "Service"@ { assert(resource_table()[8].kind == "Service"@); }
    if k == "Ingress"@ { assert(resource_table()[9].kind == "Ingress"@); }
    if k == "IngressClass"@ { assert(resource_table()[10].kind == "IngressClass"@); }
    if k == "NetworkPolicy"@ { assert(resource_table()[11].kind == "NetworkPolicy"@); }
    if k == "EndpointSlice"@ { assert(resource_table()[12].kind == "EndpointSlice"@); }
    if k == "Endpoints"@ { assert(resource_table()[13].kind == "Endpoints"@); }
    if k == "ConfigMap"@ { assert(resource_table()[14].kind == "ConfigMap"@); }
    if k == "Secret"@ { assert(resource_table()[15].kind == "Secret"@); }
    if k == "PersistentVolumeClaim"@ { assert(resource_table()[16].kind == "PersistentVolumeClaim"@); }
    if k == "PersistentVolume"@ { assert(resource_table()[17].kind == "PersistentVolume"@); }
    if k == "StorageClass"@ { assert(resource_table()[18].kind == "StorageClass"@); }
    if k == "CSIDriver"@ { assert(resource_table()[19].kind == "CSIDriver"@); }
    if k == "CSINode"@ { assert(resource_table()[20].kind == "CSINode"@); }
    if k == "ServiceAccount"@ { assert(resource_table()[21].kind == "ServiceAccount"@); }
    if k == "ResourceQuota"@ { assert(resource_table()[22].kind == "ResourceQuota"@); }
    if k == "LimitRange"@ { assert(resource_table()[23].kind == "LimitRange"@); }
    if k == "PodDisruptionBudget"@ { assert(resource_table()[24].kind == "PodDisruptionBudget"@); }
    if k == "Namespace"@ { assert(resource_table()[25].kind == "Namespace"@); }
    if k == "Node"@ { assert(resource_table()[26].kind == "Node"@); }
    if k == "PriorityClass"@ { assert(resource_table()[27].kind == "PriorityClass"@); }
    if k == "RuntimeClass"@ { assert(resource_table()[28].kind == "RuntimeClass"@); }
    if k == "Role"@ { assert(resource_table()[29].kind == "Role"@); }
    if k == "RoleBinding"@ { assert(resource_table()[30].kind == "RoleBinding"@); }
    if k == "ClusterRole"@ { assert(resource_table()[31].kind == "ClusterRole"@); }
    if k == "ClusterRoleBinding"@ { assert(resource_table()[32].kind == "ClusterRoleBinding"@); }
    if k == "CertificateSigningRequest"@ { assert(resource_table()[33].kind == "CertificateSigningRequest"@); }
    if k == "HorizontalPodAutoscaler"@ { assert(resource_table()[34].kind == "HorizontalPodAutoscaler"@); }
    if k == "CustomResourceDefinition"@ { assert(resource_table()[35].kind == "CustomResourceDefinition"@); }
    if k == "APIService"@ { assert(resource_table()[36].kind == "APIService"@); }
}

/// No two rows of the resource table have the same kind.
pub proof fn lemma_table_kinds_differ()
    ensures
        forall|i: int, j: int|
            0 <= i < resource_table().len() && 0 <= j < resource_table().len() && i != j
                ==> #[trigger] resource_table()[i].kind != #[trigger] resource_table()[j].kind,
{
    lemma_table_kinds_distinct();
    assert forall|i: int, j: int|
        0 <= i < resource_table().len() && 0 <= j < resource_table().len() && i != j implies
        #[trigger] resource_table()[i].kind != #[trigger] resource_table()[j].kind by {
        assert(kind_position(resource_table()[i].kind) == i);
        assert(kind_position(resource_table()[j].kind) == j);
    }
}

/// Whether the catalogue files `kind` under the category named `name`, the
/// shortcuts of its first category aside.
pub open spec fn catalogue_files(name: Seq<char>, kind: Seq<char>) -> bool {
    exists|c: int, i: int|
        1 <= c < resource_catalog().len() && 0 <= i < resource_catalog()[c].resources.len()
            && resource_catalog()[c].name == name && #[trigger] resource_catalog()[c].resources[i].kind
            == kind
}

/// The category that the resource table gives each supported type is the
/// catalogue's category for its kind; only resource quotas, limit ranges
/// and pod disruption budgets, which the catalogue shows under
/// configuration, are grouped with cluster administration.
#[verifier::spinoff_prover]
#[verifier::rlimit(100)]
pub proof fn lemma_table_categories_follow_catalogue(t: Seq<char>)
    requires
        supported_types().contains(t),
    ensures
        find_row(t) matches Some(row) && (catalogue_files(row.category, row.kind) || ((t
            == "resourcequotas"@ || t == "limitranges"@ || t == "poddisruptionbudgets"@)
            && row.category == "Cluster Administration"@)),
{
    lemma_scope_known_iff_supported(t);
    lemma_row_index(t);
    let j = row_index(t)->0;
    assert(0 <= j < resource_table().len());
    assert({
        let row = resource_table()[j];
        catalogue_files(row.category, row.kind) || ((row.resource_type == "resourcequotas"@
            || row.resource_type == "limitranges"@ || row.resource_type == "poddisruptionbudgets"@)
            && row.category == "Cluster Administration"@)
    }) by {
            if j == 0 {
                let x = resource_catalog()[1];
                assert(x.name == resource_table()[0].category && x.resources[0].kind == resource_table()[0].kind);
            } else if j == 1 {
                let x = resource_catalog()[1];
                assert(x.name == resource_table()[1].category && x.resources[1].kind == resource_table()[1].kind);
            } else if j == 2 {
                let x = resource_catalog()[1];
                assert(x.name == resource_table()[2].category && x.resources[2].kind == resource_table()[2].kind);
            } else if j == 3 {
                let x = resource_catalog()[1];
                assert(x.name == resource_table()[3].category && x.resources[3].kind == resource_table()[3].kind);
            } else if j == 4 {
                let x = resource_catalog()[1];
                assert(x.name == resource_table()[4].category && x.resources[5].kind == resource_table()[4].kind);
            } else if j == 5 {
                let x = resource_catalog()[1];
                assert(x.name == resource_table()[5].category && x.resources[6].kind == resource_table()[5].kind);
            } else if j == 6 {
                let x = resource_catalog()[1];
                assert(x.name == resource_table()[6].category && x.resources[4].kind == resource_table()[6].kind);
            } else if j == 7 {
                let x = resource_catalog()[1];
                assert(x.name == resource_table()[7].category && x.resources[7].kind == resource_table()[7].kind);
            } else if j == 8 {
                let x = resource_catalog()[2];
                assert(x.name == resource_table()[8].category && x.resources[0].kind == resource_table()[8].kind);
            } else if j == 9 {
                let x = resource_catalog()[2];
                assert(x.name == resource_table()[9].category && x.resources[1].kind == resource_table()[9].kind);
            } else if j == 10 {
                let x = resource_catalog()[2];
                assert(x.name == resource_table()[10].category && x.resources[2].kind == resource_table()[10].kind);
            } else if j == 11 {
                let x = resource_catalog()[2];
                assert(x.name == resource_table()[11].category && x.resources[3].kind == resource_table()[11].kind);
            } else if j == 12 {
                let x = resource_catalog()[2];
                assert(x.name == resource_table()[12].category && x.resources[4].kind == resource_table()[12].kind);
            } else if j == 13 {
                let x = resource_catalog()[2];
                assert(x.name == resource_table()[13].category && x.resources[5].kind == resource_table()[13].kind);
            } else if j == 14 {
                let x = resource_catalog()[3];
                assert(x.name == resource_table()[14].category && x.resources[0].kind == resource_table()[14].kind);
            } else if j == 15 {
                let x = resource_catalog()[3];
                assert(x.name == resource_table()[15].category && x.resources[1].kind == resource_table()[15].kind);
            } else if j == 16 {
                let x = resource_catalog()[4];
                assert(x.name == resource_table()[16].category && x.resources[1].kind == resource_table()[16].kind);
            } else if j == 17 {
                let x = resource_catalog()[4];
                assert(x.name == resource_table()[17].category && x.resources[0].kind == resource_table()[17].kind);
            } else if j == 18 {
                let x = resource_catalog()[4];
                assert(x.name == resource_table()[18].category && x.resources[2].kind == resource_table()[18].kind);
            } else if j == 19 {
                let x = resource_catalog()[4];
                assert(x.name == resource_table()[19].category && x.resources[3].kind == resource_table()[19].kind);
            } else if j == 20 {
                let x = resource_catalog()[4];
                assert(x.name == resource_table()[20].category && x.resources[4].kind == resource_table()[20].kind);
            } else if j == 21 {
                let x = resource_catalog()[5];
                assert(x.name == resource_table()[21].category && x.resources[4].kind == resource_table()[21].kind);
            } else if j == 22 {
                assert(resource_table()[22].resource_type == "resourcequotas"@ && resource_table()[22].category == "Cluster Administration"@);
            } else if j == 23 {
                assert(resource_table()[23].resource_type == "limitranges"@ && resource_table()[23].category == "Cluster Administration"@);
            } else if j == 24 {
                assert(resource_table()[24].resource_type == "poddisruptionbudgets"@ && resource_table()[24].category == "Cluster Administration"@);
            } else if j == 25 {
                let x = resource_catalog()[5];
                assert(x.name == resource_table()[25].category && x.resources[0].kind == resource_table()[25].kind);
            } else if j == 26 {
                let x = resource_catalog()[5];
                assert(x.name == resource_table()[26].category && x.resources[1].kind == resource_table()[26].kind);
            } else if j == 27 {
                let x = resource_catalog()[5];
                assert(x.name == resource_table()[27].category && x.resources[2].kind == resource_table()[27].kind);
            } else if j == 28 {
                let x = resource_catalog()[5];
                assert(x.name == resource_table()[28].category && x.resources[3].kind == resource_table()[28].kind);
            } else if j == 29 {
                let x = resource_catalog()[6];
                assert(x.name == resource_table()[29].category && x.resources[0].kind == resource_table()[29].kind);
            } else if j == 30 {
                let x = resource_catalog()[6];
                assert(x.name == resource_table()[30].category && x.resources[2].kind == resource_table()[30].kind);
            } else if j == 31 {
                let x = resource_catalog()[6];
                assert(x.name == resource_table()[31].category && x.resources[1].kind == resource_table()[31].kind);
            } else if j == 32 {
                let x = resource_catalog()[6];
                assert(x.name == resource_table()[32].category && x.resources[3].kind == resource_table()[32].kind);
            } else if j == 33 {
                let x = resource_catalog()[6];
                assert(x.name == resource_table()[33].category && x.resources[4].kind == resource_table()[33].kind);
            } else if j == 34 {
                let x = resource_catalog()[7];
                assert(x.name == resource_table()[34].category && x.resources[0].kind == resource_table()[34].kind);
            } else if j == 35 {
                let x = resource_catalog()[8];
                assert(x.name == resource_table()[35].category && x.resources[0].kind == resource_table()[35].kind);
            } else if j == 36 {
                let x = resource_catalog()[8];
                assert(x.name == resource_table()[36].category && x.resources[1].kind == resource_table()[36].kind);
            }
    }
}

} // verus!
