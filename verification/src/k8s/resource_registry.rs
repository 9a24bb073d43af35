//! The registry of resource types that the resource commands and the
//! generic watcher handle, with their metadata.
use vstd::prelude::*;
use crate::errors::K8sError;
use crate::ordering::views;
use crate::table::KeyedTable;
use crate::text::{concat, owned, str_eq};
use crate::ordering::push_str;

verus! {

/// Metadata of a resource type, as plain values.
pub struct MetadataView {
    pub kind: Seq<char>,
    pub api_version: Seq<char>,
    pub is_namespaced: bool,
    pub category: Seq<char>,
    pub short_names: Seq<Seq<char>>,
    pub scalable: bool,
    pub watchable: bool,
}

/// Metadata information about a Kubernetes resource type.
#[derive(Debug)]
pub struct ResourceMetadata {
    /// Resource kind (e.g., "Pod", "Deployment")
    pub kind: String,
    /// API version (e.g., "v1", "apps/v1")
    pub api_version: String,
    /// Whether the resource is namespaced
    pub is_namespaced: bool,
    /// Resource category for grouping
    pub category: String,
    /// Short names for the resource
    pub short_names: Vec<String>,
    /// Whether the resource supports scaling
    pub scalable: bool,
    /// Whether the resource can be watched
    pub watchable: bool,
}

impl View for ResourceMetadata {
    type V = MetadataView;

    open spec fn view(&self) -> MetadataView {
        MetadataView {
            kind: self.kind@,
            api_version: self.api_version@,
            is_namespaced: self.is_namespaced,
            category: self.category@,
            short_names: views(self.short_names@),
            scalable: self.scalable,
            watchable: self.watchable,
        }
    }
}

/// A copy of a list of strings.
pub fn copy_strings(v: &Vec<String>) -> (r: Vec<String>)
    ensures
        views(r@) == views(v@),
{
    let mut r: Vec<String> = Vec::new();
    let mut i: usize = 0;
    while i < v.len()
        invariant
            i <= v.len(),
            views(r@) == views(v@).take(i as int),
        decreases v.len() - i,
    {
        let ghost before = r@;
        let s = owned(v[i].as_str());
        r.push(s);
        assert(views(r@) =~= views(before).push(s@));
        assert(views(v@).take(i + 1) =~= views(v@).take(i as int).push(v@[i as int]@));
        i = i + 1;
    }
    assert(views(v@).take(v.len() as int) =~= views(v@));
    r
}

impl ResourceMetadata {
    /// A copy of this metadata.
    pub fn duplicate(&self) -> (r: Self)
        ensures
            r@ == self@,
    {
        ResourceMetadata {
            kind: owned(self.kind.as_str()),
            api_version: owned(self.api_version.as_str()),
            is_namespaced: self.is_namespaced,
            category: owned(self.category.as_str()),
            short_names: copy_strings(&self.short_names),
            scalable: self.scalable,
            watchable: self.watchable,
        }
    }
}

/// Handler for one resource type, described by its metadata.
#[derive(Debug)]
pub struct GenericResourceHandler {
    metadata: ResourceMetadata,
}

impl GenericResourceHandler {
    /// The metadata this handler describes.
    pub closed spec fn meta(&self) -> MetadataView {
        self.metadata@
    }

    pub fn new(metadata: ResourceMetadata) -> (r: Self)
        ensures
            r.meta() == metadata@,
    {
        GenericResourceHandler { metadata }
    }

    /// Metadata for this resource type.
    pub fn metadata(&self) -> (r: &ResourceMetadata)
        ensures
            r@ == self.meta(),
    {
        &self.metadata
    }

    /// What a request to scale this resource type is answered: resource
    /// types that do not scale are refused as such, and scaling is not
    /// implemented for the others.
    pub fn scale_resource(&self) -> (r: Result<(), K8sError>)
        ensures
            r matches Err(K8sError::ValidationFailed { message }) && message@ == (if self.meta().scalable {
                "Scale operation not implemented for this resource type"@
            } else {
                "Resource type '"@ + self.meta().kind + "' is not scalable"@
            }),
    {
        if !self.metadata.scalable {
            let mut message = concat("Resource type '", self.metadata.kind.as_str());
            push_str(&mut message, "' is not scalable");
            return Err(K8sError::ValidationFailed { message });
        }
        Err(K8sError::ValidationFailed {
            message: owned("Scale operation not implemented for this resource type"),
        })
    }

    /// What a request for one resource of this type is answered: it is not
    /// found.
    pub fn get_resource(&self, name: String, namespace: Option<String>) -> (r: Result<(), K8sError>)
        ensures
            r matches Err(K8sError::ResourceNotFound { resource_type, name: n, namespace: ns })
                && resource_type@ == self.meta().kind && n == name && ns == namespace,
    {
        Err(K8sError::ResourceNotFound {
            resource_type: owned(self.metadata.kind.as_str()),
            name,
            namespace,
        })
    }

    /// What a request to delete one resource of this type is answered: it
    /// is not found.
    pub fn delete_resource(&self, name: String, namespace: Option<String>) -> (r: Result<(), K8sError>)
        ensures
            r matches Err(K8sError::ResourceNotFound { resource_type, name: n, namespace: ns })
                && resource_type@ == self.meta().kind && n == name && ns == namespace,
    {
        Err(K8sError::ResourceNotFound {
            resource_type: owned(self.metadata.kind.as_str()),
            name,
            namespace,
        })
    }
}

/// A resource type that is registered from the start, with its metadata.
pub struct CoreResource {
    pub resource_type: Seq<char>,
    pub metadata: MetadataView,
}

/// The number of resource types registered from the start.
pub const CORE_RESOURCE_COUNT: usize = 18;

/// The resource types registered from the start, in registration order.
pub open spec fn core_resources() -> Seq<CoreResource> {
    seq![
        CoreResource { resource_type: "pods"@, metadata: MetadataView { kind: "Pod"@, api_version: "v1"@, is_namespaced: true, category: "Workloads"@, short_names: seq!["po"@], scalable: false, watchable: true } },
        CoreResource { resource_type: "deployments"@, metadata: MetadataView { kind: "Deployment"@, api_version: "apps/v1"@, is_namespaced: true, category: "Workloads"@, short_names: seq!["deploy"@], scalable: true, watchable: true } },
        CoreResource { resource_type: "daemonsets"@, metadata: MetadataView { kind: "DaemonSet"@, api_version: "apps/v1"@, is_namespaced: true, category: "Workloads"@, short_names: seq!["ds"@], scalable: false, watchable: true } },
        CoreResource { resource_type: "statefulsets"@, metadata: MetadataView { kind: "StatefulSet"@, api_version: "apps/v1"@, is_namespaced: true, category: "Workloads"@, short_names: seq!["sts"@], scalable: true, watchable: true } },
        CoreResource { resource_type: "replicasets"@, metadata: MetadataView { kind: "ReplicaSet"@, api_version: "apps/v1"@, is_namespaced: true, category: "Workloads"@, short_names: seq!["rs"@], scalable: true, watchable: true } },
        CoreResource { resource_type: "services"@, metadata: MetadataView { kind: "Service"@, api_version: "v1"@, is_namespaced: true, category: "Services and Discovery"@, short_names: seq!["svc"@], scalable: false, watchable: true } },
        CoreResource { resource_type: "configmaps"@, metadata: MetadataView { kind: "ConfigMap"@, api_version: "v1"@, is_namespaced: true, category: "Configuration and Storage"@, short_names: seq!["cm"@], scalable: false, watchable: true } },
        CoreResource { resource_type: "secrets"@, metadata: MetadataView { kind: "Secret"@, api_version: "v1"@, is_namespaced: true, category: "Configuration and Storage"@, short_names: seq![], scalable: false, watchable: true } },
        CoreResource { resource_type: "namespaces"@, metadata: MetadataView { kind: "Namespace"@, api_version: "v1"@, is_namespaced: false, category: "Cluster"@, short_names: seq!["ns"@], scalable: false, watchable: true } },
        CoreResource { resource_type: "nodes"@, metadata: MetadataView { kind: "Node"@, api_version: "v1"@, is_namespaced: false, category: "Cluster"@, short_names: seq!["no"@], scalable: false, watchable: true } },
        CoreResource { resource_type: "jobs"@, metadata: MetadataView { kind: "Job"@, api_version: "batch/v1"@, is_namespaced: true, category: "Batch"@, short_names: seq![], scalable: false, watchable: true } },
        CoreResource { resource_type: "cronjobs"@, metadata: MetadataView { kind: "CronJob"@, api_version: "batch/v1"@, is_namespaced: true, category: "Batch"@, short_names: seq!["cj"@], scalable: false, watchable: true } },
        CoreResource { resource_type: "ingresses"@, metadata: MetadataView { kind: "Ingress"@, api_version: "networking.k8s.io/v1"@, is_namespaced: true, category: "Networking"@, short_names: seq!["ing"@], scalable: false, watchable: true } },
        CoreResource { resource_type: "networkpolicies"@, metadata: MetadataView { kind: "NetworkPolicy"@, api_version: "networking.k8s.io/v1"@, is_namespaced: true, category: "Networking"@, short_names: seq!["netpol"@], scalable: false, watchable: true } },
        CoreResource { resource_type: "roles"@, metadata: MetadataView { kind: "Role"@, api_version: "rbac.authorization.k8s.io/v1"@, is_namespaced: true, category: "RBAC"@, short_names: seq![], scalable: false, watchable: true } },
        CoreResource { resource_type: "rolebindings"@, metadata: MetadataView { kind: "RoleBinding"@, api_version: "rbac.authorization.k8s.io/v1"@, is_namespaced: true, category: "RBAC"@, short_names: seq![], scalable: false, watchable: true } },
        CoreResource { resource_type: "clusterroles"@, metadata: MetadataView { kind: "ClusterRole"@, api_version: "rbac.authorization.k8s.io/v1"@, is_namespaced: false, category: "RBAC"@, short_names: seq![], scalable: false, watchable: true } },
        CoreResource { resource_type: "clusterrolebindings"@, metadata: MetadataView { kind: "ClusterRoleBinding"@, api_version: "rbac.authorization.k8s.io/v1"@, is_namespaced: false, category: "RBAC"@, short_names: seq![], scalable: false, watchable: true } },
    ]
}

/// The `i`-th resource type registered from the start: name, kind, API
/// version, scope, category, short name (if any) and whether it scales.
fn core_row(i: usize) -> (r: (&'static str, &'static str, &'static str, bool, &'static str, Option<&'static str>, bool))
    requires
        i < CORE_RESOURCE_COUNT,
    ensures
        r.0@ == core_resources()[i as int].resource_type,
        r.1@ == core_resources()[i as int].metadata.kind,
        r.2@ == core_resources()[i as int].metadata.api_version,
        r.3 == core_resources()[i as int].metadata.is_namespaced,
        r.4@ == core_resources()[i as int].metadata.category,
        (match r.5 {
            Some(s) => core_resources()[i as int].metadata.short_names == seq![s@],
            None => core_resources()[i as int].metadata.short_names == Seq::<Seq<char>>::empty(),
        }),
        r.6 == core_resources()[i as int].metadata.scalable,
        core_resources()[i as int].metadata.watchable,
{
    match i {
        0 => ("pods", "Pod", "v1", true, "Workloads", Some("po"), false),
        1 => ("deployments", "Deployment", "apps/v1", true, "Workloads", Some("deploy"), true),
        2 => ("daemonsets", "DaemonSet", "apps/v1", true, "Workloads", Some("ds"), false),
        3 => ("statefulsets", "StatefulSet", "apps/v1", true, "Workloads", Some("sts"), true),
        4 => ("replicasets", "ReplicaSet", "apps/v1", true, "Workloads", Some("rs"), true),
        5 => ("services", "Service", "v1", true, "Services and Discovery", Some("svc"), false),
        6 => ("configmaps", "ConfigMap", "v1", true, "Configuration and Storage", Some("cm"), false),
        7 => ("secrets", "Secret", "v1", true, "Configuration and Storage", None, false),
        8 => ("namespaces", "Namespace", "v1", false, "Cluster", Some("ns"), false),
        9 => ("nodes", "Node", "v1", false, "Cluster", Some("no"), false),
        10 => ("jobs", "Job", "batch/v1", true, "Batch", None, false),
        11 => ("cronjobs", "CronJob", "batch/v1", true, "Batch", Some("cj"), false),
        12 => ("ingresses", "Ingress", "networking.k8s.io/v1", true, "Networking", Some("ing"), false),
        13 => ("networkpolicies", "NetworkPolicy", "networking.k8s.io/v1", true, "Networking", Some("netpol"), false),
        14 => ("roles", "Role", "rbac.authorization.k8s.io/v1", true, "RBAC", None, false),
        15 => ("rolebindings", "RoleBinding", "rbac.authorization.k8s.io/v1", true, "RBAC", None, false),
        16 => ("clusterroles", "ClusterRole", "rbac.authorization.k8s.io/v1", false, "RBAC", None, false),
        _ => ("clusterrolebindings", "ClusterRoleBinding", "rbac.authorization.k8s.io/v1", false, "RBAC", None, false),
    }
}

/// The metadata of the `i`-th resource type registered from the start.
fn core_metadata(i: usize) -> (r: (String, ResourceMetadata))
    requires
        i < CORE_RESOURCE_COUNT,
    ensures
        r.0@ == core_resources()[i as int].resource_type,
        r.1@ == core_resources()[i as int].metadata,
{
    let row = core_row(i);
    let mut short_names: Vec<String> = Vec::new();
    match row.5 {
        Some(s) => {
            short_names.push(owned(s));
        },
        None => {},
    }
    let m = ResourceMetadata {
        kind: owned(row.1),
        api_version: owned(row.2),
        is_namespaced: row.3,
        category: owned(row.4),
        short_names,
        scalable: row.6,
        watchable: true,
    };
    assert(m@.short_names =~= core_resources()[i as int].metadata.short_names);
    (owned(row.0), m)
}


/// What the registry holds after the first `n` core resource types are
/// registered in order.
pub open spec fn core_registry_upto(n: int) -> Map<Seq<char>, MetadataView>
    decreases n,
{
    if n <= 0 {
        Map::empty()
    } else {
        core_registry_upto(n - 1).insert(
            core_resources()[n - 1].resource_type,
            core_resources()[n - 1].metadata,
        )
    }
}

/// What the registry holds once every core resource type is registered.
pub open spec fn core_registry() -> Map<Seq<char>, MetadataView> {
    core_registry_upto(CORE_RESOURCE_COUNT as int)
}

/// The core registry holds exactly the core resource types.
pub proof fn lemma_core_registry_upto_dom(n: int, t: Seq<char>)
    requires
        0 <= n <= CORE_RESOURCE_COUNT,
    ensures
        core_registry_upto(n).contains_key(t) <==> exists|j: int|
            0 <= j < n && #[trigger] core_resources()[j].resource_type == t,
    decreases n,
{
    if n > 0 {
        lemma_core_registry_upto_dom(n - 1, t);
        if core_resources()[n - 1].resource_type == t {
            assert(core_resources()[n - 1].resource_type == t);
        }
    }
}

/// Each key of a registry built from the core rows holds the metadata of a
/// core row of that resource type.
proof fn lemma_core_registry_entry(n: int, t: Seq<char>)
    requires
        0 <= n <= CORE_RESOURCE_COUNT,
        core_registry_upto(n).contains_key(t),
    ensures
        exists|j: int|
            0 <= j < n && #[trigger] core_resources()[j].resource_type == t
                && core_registry_upto(n)[t] == core_resources()[j].metadata,
    decreases n,
{
    if core_resources()[n - 1].resource_type == t {
        assert(core_resources()[n - 1].resource_type == t);
    } else {
        lemma_core_registry_entry(n - 1, t);
        let j = choose|j: int|
            0 <= j < n - 1 && #[trigger] core_resources()[j].resource_type == t
                && core_registry_upto(n - 1)[t] == core_resources()[j].metadata;
        assert(core_resources()[j].resource_type == t);
    }
}

/// Of the resource types registered from the start, exactly deployments,
/// stateful sets and replica sets can be scaled.
#[verifier::spinoff_prover]
pub proof fn lemma_core_scalable_types(t: Seq<char>)
    requires
        core_registry().contains_key(t),
    ensures
        core_registry()[t].scalable <==> (t == "deployments"@ || t == "statefulsets"@ || t
            == "replicasets"@),
{
    reveal_strlit("jobs");
    reveal_strlit("nodes");
    reveal_strlit("daemonsets");
    reveal_strlit("secrets");
    reveal_strlit("configmaps");
    reveal_strlit("replicasets");
    reveal_strlit("cronjobs");
    reveal_strlit("ingresses");
    reveal_strlit("networkpolicies");
    reveal_strlit("deployments");
    reveal_strlit("namespaces");
    reveal_strlit("rolebindings");
    reveal_strlit("services");
    reveal_strlit("clusterrolebindings");
    reveal_strlit("statefulsets");
    reveal_strlit("roles");
    reveal_strlit("clusterroles");
    reveal_strlit("pods");
    assert("clusterrolebindings"@.len() == 19);
    assert("clusterroles"@.len() == 12);
    assert("configmaps"@.len() == 10);
    assert("cronjobs"@.len() == 8);
    assert("daemonsets"@.len() == 10);
    assert("deployments"@.len() == 11);
    assert("ingresses"@.len() == 9);
    assert("jobs"@.len() == 4);
    assert("namespaces"@.len() == 10);
    assert("networkpolicies"@.len() == 15);
    assert("nodes"@.len() == 5);
    assert("pods"@.len() == 4);
    assert("replicasets"@.len() == 11);
    assert("rolebindings"@.len() == 12);
    assert("roles"@.len() == 5);
    assert("secrets"@.len() == 7);
    assert("services"@.len() == 8);
    assert("statefulsets"@.len() == 12);
    assert("deployments"@[0] != "replicasets"@[0]);
    assert("replicasets"@[0] != "deployments"@[0]);
    assert("rolebindings"@[0] != "statefulsets"@[0]);
    assert("clusterroles"@[0] != "statefulsets"@[0]);
    lemma_core_registry_entry(CORE_RESOURCE_COUNT as int, t);
    let j = choose|j: int|
        0 <= j < CORE_RESOURCE_COUNT && #[trigger] core_resources()[j].resource_type == t
            && core_registry()[t] == core_resources()[j].metadata;
    assert(core_registry()[t] == core_resources()[j].metadata);
}

/// Central registry of resource types and their handlers.
#[derive(Debug)]
pub struct ResourceRegistry {
    handlers: KeyedTable<GenericResourceHandler>,
}

/// The contents of a registry.
pub open spec fn handler_view(t: KeyedTable<GenericResourceHandler>) -> Map<Seq<char>, MetadataView> {
    Map::new(|k: Seq<char>| t@.contains_key(k), |k: Seq<char>| t@[k].meta())
}

impl View for ResourceRegistry {
    type V = Map<Seq<char>, MetadataView>;

    closed spec fn view(&self) -> Map<Seq<char>, MetadataView> {
        handler_view(self.handlers)
    }
}

impl ResourceRegistry {
    /// The registered resource types, in registration order.
    pub closed spec fn type_order(&self) -> Seq<Seq<char>> {
        self.handlers.key_list()
    }

    /// An empty registry.
    pub fn new() -> (r: Self)
        ensures
            r@ == Map::<Seq<char>, MetadataView>::empty(),
    {
        let r = ResourceRegistry { handlers: KeyedTable::new() };
        assert(r@ =~= Map::<Seq<char>, MetadataView>::empty());
        r
    }

    /// Registers `handler` for `resource_type`, replacing any handler that
    /// was registered for it.
    pub fn register(&mut self, resource_type: String, handler: GenericResourceHandler)
        ensures
            final(self)@ == old(self)@.insert(resource_type@, handler.meta()),
    {
        let ghost m = handler.meta();
        let ghost t = resource_type@;
        self.handlers.insert(resource_type, handler);
        assert(self@ =~= old(self)@.insert(t, m));
    }

    /// The handler registered for `resource_type`; an unknown resource type
    /// is refused as invalid.
    pub fn get_handler(&self, resource_type: &str) -> (r: Result<&GenericResourceHandler, K8sError>)
        ensures
            match r {
                Ok(h) => self@.contains_key(resource_type@) && h.meta() == self@[resource_type@],
                Err(e) => !self@.contains_key(resource_type@) && (e matches K8sError::InvalidResourceType {
                    resource_type: t,
                } && t@ == resource_type@),
            },
    {
        match self.handlers.get(resource_type) {
            Some(h) => Ok(h),
            None => Err(K8sError::InvalidResourceType { resource_type: owned(resource_type) }),
        }
    }

    /// Whether a handler is registered for `resource_type`.
    pub fn is_registered(&self, resource_type: &str) -> (r: bool)
        ensures
            r == self@.contains_key(resource_type@),
    {
        self.handlers.contains_key(resource_type)
    }

    /// Every registered resource type, each once, in registration order.
    pub fn list_resource_types(&self) -> (r: Vec<String>)
        ensures
            views(r@) == self.type_order(),
            views(r@).to_set() == self@.dom(),
            views(r@).no_duplicates(),
    {
        let r = self.handlers.keys();
        assert(self@.dom() =~= self.handlers@.dom());
        r
    }

    /// The metadata of every registered resource type, in registration
    /// order.
    pub fn get_all_metadata(&self) -> (r: Vec<ResourceMetadata>)
        ensures
            r@.len() == self.type_order().len(),
            forall|i: int|
                0 <= i < r@.len() ==> r@[i]@ == self@[#[trigger] self.type_order()[i]],
    {
        let hs = self.handlers.values();
        let mut r: Vec<ResourceMetadata> = Vec::new();
        let mut i: usize = 0;
        while i < hs.len()
            invariant
                i <= hs.len(),
                hs@.len() == self.type_order().len(),
                forall|j: int| 0 <= j < hs@.len() ==> *hs@[j] == self.handlers@[#[trigger] self.type_order()[j]],
                r@.len() == i,
                forall|j: int| 0 <= j < i ==> r@[j]@ == self@[#[trigger] self.type_order()[j]],
            decreases hs.len() - i,
        {
            let m = hs[i].metadata().duplicate();
            proof {
                let k = self.type_order()[i as int];
                assert(*hs@[i as int] == self.handlers@[k]);
                self.handlers.lemma_keys_in_dom(i as int);
            }
            r.push(m);
            i = i + 1;
        }
        r
    }

    /// The metadata of the registered resource types grouped by category;
    /// within a category, in registration order.
    pub fn get_resources_by_category(&self) -> (r: KeyedTable<Vec<ResourceMetadata>>)
        ensures
            forall|c: Seq<char>|
                #[trigger] r@.contains_key(c) <==> category_members(self.type_order(), self@, c).len()
                    > 0,
            forall|c: Seq<char>|
                #[trigger] r@.contains_key(c) ==> metadata_views(r@[c]@) == category_members(
                    self.type_order(),
                    self@,
                    c,
                ),
    {
        let hs = self.handlers.values();
        let ghost order = self.type_order();
        let ghost m = self@;
        let mut r: KeyedTable<Vec<ResourceMetadata>> = KeyedTable::new();
        assert forall|j: int| 0 <= j < hs@.len() implies (*hs@[j]).meta() == m[#[trigger] order[j]] by {
            self.handlers.lemma_keys_in_dom(j);
        }
        let mut i: usize = 0;
        while i < hs.len()
            invariant
                i <= hs.len(),
                hs@.len() == order.len(),
                order == self.type_order(),
                m == self@,
                forall|j: int| 0 <= j < hs@.len() ==> (*hs@[j]).meta() == m[#[trigger] order[j]],
                forall|c: Seq<char>|
                    #[trigger] r@.contains_key(c) <==> category_members(order.take(i as int), m, c).len() > 0,
                forall|c: Seq<char>|
                    #[trigger] r@.contains_key(c) ==> metadata_views(r@[c]@) == category_members(
                        order.take(i as int),
                        m,
                        c,
                    ),
            decreases hs.len() - i,
        {
            let meta = hs[i].metadata().duplicate();
            let ghost k = order[i as int];
            proof {
                self.handlers.lemma_keys_in_dom(i as int);
                assert(meta@ == m[k]);
                assert(order.take(i + 1) =~= order.take(i as int).push(k));
            }
            let category = owned(meta.category.as_str());
            let ghost cat = category@;
            let mut members = match r.remove(category.as_str()) {
                Some(v) => v,
                None => Vec::new(),
            };
            let ghost before = members@;
            members.push(meta);
            proof {
                assert(metadata_views(members@) =~= metadata_views(before).push(m[k]));
            }
            r.insert(category, members);
            proof {
                assert forall|c: Seq<char>| #[trigger] r@.contains_key(c) <==> category_members(
                    order.take(i + 1),
                    m,
                    c,
                ).len() > 0 by {
                    lemma_category_members_push(order.take(i as int), m, c, k);
                }
                assert forall|c: Seq<char>| #[trigger] r@.contains_key(c) implies metadata_views(r@[c]@)
                    == category_members(order.take(i + 1), m, c) by {
                    lemma_category_members_push(order.take(i as int), m, c, k);
                    if c != cat {
                        assert(category_members(order.take(i as int), m, c).len() > 0);
                    } else {
                        if category_members(order.take(i as int), m, c).len() == 0 {
                            assert(before.len() == 0);
                            assert(metadata_views(before) =~= Seq::<MetadataView>::empty());
                        }
                    }
                }
            }
            i = i + 1;
        }
        assert(order.take(hs.len() as int) =~= order);
        r
    }

    /// The registry of the core resource types: workloads, services,
    /// configuration, cluster resources, batch, networking and RBAC.
    pub fn with_core_resources() -> (r: Self)
        ensures
            r@ == core_registry(),
    {
        let mut r = ResourceRegistry::new();
        let mut i: usize = 0;
        while i < CORE_RESOURCE_COUNT
            invariant
                i <= CORE_RESOURCE_COUNT,
                r@ == core_registry_upto(i as int),
            decreases CORE_RESOURCE_COUNT - i,
        {
            let (t, m) = core_metadata(i);
            r.register(t, GenericResourceHandler::new(m));
            i = i + 1;
        }
        r
    }
}

impl Default for ResourceRegistry {
    /// An empty registry.
    fn default() -> (r: Self)
        ensures
            r@ == Map::<Seq<char>, MetadataView>::empty(),
    {
        ResourceRegistry::new()
    }
}

/// The metadata views of a list of metadata.
pub open spec fn metadata_views(s: Seq<ResourceMetadata>) -> Seq<MetadataView> {
    s.map_values(|x: ResourceMetadata| x@)
}

/// The metadata, in `order`, of the resource types of category `c`.
pub open spec fn category_members(
    order: Seq<Seq<char>>,
    m: Map<Seq<char>, MetadataView>,
    c: Seq<char>,
) -> Seq<MetadataView> {
    order.filter(|k: Seq<char>| m[k].category == c).map_values(|k: Seq<char>| m[k])
}

proof fn lemma_category_members_push(
    order: Seq<Seq<char>>,
    m: Map<Seq<char>, MetadataView>,
    c: Seq<char>,
    k: Seq<char>,
)
    ensures
        category_members(order.push(k), m, c) == if m[k].category == c {
            category_members(order, m, c).push(m[k])
        } else {
            category_members(order, m, c)
        },
{
    let p = |x: Seq<char>| m[x].category == c;
    order.lemma_filter_push(k, p);
    if p(k) {
        assert(order.filter(p).push(k).map_values(|x: Seq<char>| m[x]) =~= order.filter(p).map_values(
            |x: Seq<char>| m[x],
        ).push(m[k]));
    }
}

/// A resource type can be watched by the generic watcher exactly when it
/// is among the core resource types.
pub fn is_core_resource_type(resource_type: &str) -> (r: bool)
    ensures
        r == core_registry().contains_key(resource_type@),
{
    proof {
        lemma_core_registry_upto_dom(CORE_RESOURCE_COUNT as int, resource_type@);
    }
    let mut i: usize = 0;
    while i < CORE_RESOURCE_COUNT
        invariant
            i <= CORE_RESOURCE_COUNT,
            forall|j: int| 0 <= j < i ==> core_resources()[j].resource_type != resource_type@,
        decreases CORE_RESOURCE_COUNT - i,
    {
        let row = core_row(i);
        if str_eq(row.0, resource_type) {
            assert(core_resources()[i as int].resource_type == resource_type@);
            proof {
                lemma_core_registry_upto_dom(CORE_RESOURCE_COUNT as int, resource_type@);
            }
            return true;
        }
        i = i + 1;
    }
    false
}

} // verus!
