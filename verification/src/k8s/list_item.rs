//! How an object listed or watched becomes a list item: which typed detail
//! of the item its spec and status fill, and the endpoint subsets that are
//! read out of an `Endpoints` object.
use vstd::prelude::*;
use crate::k8s::catalog::{find_row, lemma_find_row_at, lemma_row_index, resource_table, row_index};
use crate::k8s::resources::lemma_table_kinds_differ;
use crate::text::str_eq;

verus! {

/// The typed detail of a list item that an object of a resource type fills.
#[derive(Debug, Clone, Copy, PartialEq, Eq, Structural)]
pub enum ListItemDetail {
    Pod,
    Deployment,
    Service,
    ReplicaSet,
    StatefulSet,
    DaemonSet,
    Job,
    CronJob,
    Ingress,
    Namespace,
    Node,
    PersistentVolume,
    PersistentVolumeClaim,
    /// The whole storage class.
    StorageClass,
    HorizontalPodAutoscaler,
    PodDisruptionBudget,
    /// The spec alone.
    NetworkPolicy,
    /// The object's `data` field, kept as a config map's.
    ConfigMapData,
    /// The object's `data` field, kept as a secret's.
    SecretData,
    /// The object's `rules` field.
    RoleRules,
    /// The object's `subjects` field.
    RoleBindingSubjects,
    /// The object's `secrets` field.
    ServiceAccountSecrets,
    /// The whole endpoint slice.
    EndpointSlice,
    /// The subsets read out of an `Endpoints` object.
    EndpointSubsets,
    /// Nothing beyond the metadata and the complete object.
    Nothing,
}

/// The detail that an object of `resource_type` fills.
pub open spec fn detail_of(resource_type: Seq<char>) -> ListItemDetail {
    if resource_type == "pods"@ {
        ListItemDetail::Pod
    } else if resource_type == "deployments"@ {
        ListItemDetail::Deployment
    } else if resource_type == "services"@ {
        ListItemDetail::Service
    } else if resource_type == "replicasets"@ {
        ListItemDetail::ReplicaSet
    } else if resource_type == "statefulsets"@ {
        ListItemDetail::StatefulSet
    } else if resource_type == "daemonsets"@ {
        ListItemDetail::DaemonSet
    } else if resource_type == "jobs"@ {
        ListItemDetail::Job
    } else if resource_type == "cronjobs"@ {
        ListItemDetail::CronJob
    } else if resource_type == "ingresses"@ {
        ListItemDetail::Ingress
    } else if resource_type == "namespaces"@ {
        ListItemDetail::Namespace
    } else if resource_type == "nodes"@ {
        ListItemDetail::Node
    } else if resource_type == "persistentvolumes"@ {
        ListItemDetail::PersistentVolume
    } else if resource_type == "persistentvolumeclaims"@ {
        ListItemDetail::PersistentVolumeClaim
    } else if resource_type == "storageclasses"@ {
        ListItemDetail::StorageClass
    } else if resource_type == "horizontalpodautoscalers"@ {
        ListItemDetail::HorizontalPodAutoscaler
    } else if resource_type == "poddisruptionbudgets"@ {
        ListItemDetail::PodDisruptionBudget
    } else if resource_type == "networkpolicies"@ {
        ListItemDetail::NetworkPolicy
    } else if resource_type == "configmaps"@ {
        ListItemDetail::ConfigMapData
    } else if resource_type == "secrets"@ {
        ListItemDetail::SecretData
    } else if resource_type == "roles"@ || resource_type == "clusterroles"@ {
        ListItemDetail::RoleRules
    } else if resource_type == "rolebindings"@ || resource_type == "clusterrolebindings"@ {
        ListItemDetail::RoleBindingSubjects
    } else if resource_type == "serviceaccounts"@ {
        ListItemDetail::ServiceAccountSecrets
    } else if resource_type == "endpointslices"@ {
        ListItemDetail::EndpointSlice
    } else if resource_type == "endpoints"@ {
        ListItemDetail::EndpointSubsets
    } else {
        ListItemDetail::Nothing
    }
}

/// The detail that an object of `resource_type` fills in its list item.
pub fn list_item_detail(resource_type: &str) -> (r: ListItemDetail)
    ensures
        r == detail_of(resource_type@),
{
    let t = resource_type;
    if str_eq(t, "pods") {
        ListItemDetail::Pod
    } else if str_eq(t, "deployments") {
        ListItemDetail::Deployment
    } else if str_eq(t, "services") {
        ListItemDetail::Service
    } else if str_eq(t, "replicasets") {
        ListItemDetail::ReplicaSet
    } else if str_eq(t, "statefulsets") {
        ListItemDetail::StatefulSet
    } else if str_eq(t, "daemonsets") {
        ListItemDetail::DaemonSet
    } else if str_eq(t, "jobs") {
        ListItemDetail::Job
    } else if str_eq(t, "cronjobs") {
        ListItemDetail::CronJob
    } else if str_eq(t, "ingresses") {
        ListItemDetail::Ingress
    } else if str_eq(t, "namespaces") {
        ListItemDetail::Namespace
    } else if str_eq(t, "nodes") {
        ListItemDetail::Node
    } else if str_eq(t, "persistentvolumes") {
        ListItemDetail::PersistentVolume
    } else if str_eq(t, "persistentvolumeclaims") {
        ListItemDetail::PersistentVolumeClaim
    } else if str_eq(t, "storageclasses") {
        ListItemDetail::StorageClass
    } else if str_eq(t, "horizontalpodautoscalers") {
        ListItemDetail::HorizontalPodAutoscaler
    } else if str_eq(t, "poddisruptionbudgets") {
        ListItemDetail::PodDisruptionBudget
    } else if str_eq(t, "networkpolicies") {
        ListItemDetail::NetworkPolicy
    } else if str_eq(t, "configmaps") {
        ListItemDetail::ConfigMapData
    } else if str_eq(t, "secrets") {
        ListItemDetail::SecretData
    } else if str_eq(t, "roles") || str_eq(t, "clusterroles") {
        ListItemDetail::RoleRules
    } else if str_eq(t, "rolebindings") || str_eq(t, "clusterrolebindings") {
        ListItemDetail::RoleBindingSubjects
    } else if str_eq(t, "serviceaccounts") {
        ListItemDetail::ServiceAccountSecrets
    } else if str_eq(t, "endpointslices") {
        ListItemDetail::EndpointSlice
    } else if str_eq(t, "endpoints") {
        ListItemDetail::EndpointSubsets
    } else {
        ListItemDetail::Nothing
    }
}

/// An address of an `Endpoints` subset as the object holds it: its `ip`
/// field when that is a string.
#[derive(Debug)]
pub struct RawEndpointAddress {
    pub ip: Option<String>,
}

/// A port of an `Endpoints` subset as the object holds it: its `port` field
/// when that is an integer, and its `name` and `protocol` fields when they
/// are strings.
#[derive(Debug)]
pub struct RawEndpointPort {
    pub port: Option<i64>,
    pub name: Option<String>,
    pub protocol: Option<String>,
}

/// A subset of an `Endpoints` object as the object holds it; each list is
/// `None` when the field is missing or not an array.
#[derive(Debug)]
pub struct RawEndpointSubset {
    pub addresses: Option<Vec<RawEndpointAddress>>,
    pub not_ready_addresses: Option<Vec<RawEndpointAddress>>,
    pub ports: Option<Vec<RawEndpointPort>>,
}

/// An address of a list item's endpoint subset.
#[derive(Debug)]
pub struct EndpointAddressItem {
    pub ip: String,
}

/// A port of a list item's endpoint subset.
#[derive(Debug)]
pub struct EndpointPortItem {
    pub port: i32,
    pub name: Option<String>,
    pub protocol: Option<String>,
}

/// An endpoint subset of a list item.
#[derive(Debug)]
pub struct EndpointSubsetItem {
    pub addresses: Option<Vec<EndpointAddressItem>>,
    pub not_ready_addresses: Option<Vec<EndpointAddressItem>>,
    pub ports: Option<Vec<EndpointPortItem>>,
}

/// The addresses that have an IP, in order.
pub open spec fn kept_addresses(s: Seq<RawEndpointAddress>) -> Seq<EndpointAddressItem>
    decreases s.len(),
{
    if s.len() == 0 {
        Seq::empty()
    } else {
        let rest = kept_addresses(s.drop_last());
        match s.last().ip {
            Some(ip) => rest.push(EndpointAddressItem { ip }),
            None => rest,
        }
    }
}

/// The ports that have a number, in order, the number cut to 32 bits.
pub open spec fn kept_ports(s: Seq<RawEndpointPort>) -> Seq<EndpointPortItem>
    decreases s.len(),
{
    if s.len() == 0 {
        Seq::empty()
    } else {
        let rest = kept_ports(s.drop_last());
        let p = s.last();
        match p.port {
            Some(n) => rest.push(EndpointPortItem { port: n as i32, name: p.name, protocol: p.protocol }),
            None => rest,
        }
    }
}

/// A list of addresses as the list item holds it.
pub open spec fn addresses_item(a: Option<Vec<RawEndpointAddress>>) -> Option<Seq<EndpointAddressItem>> {
    match a {
        Some(v) => Some(kept_addresses(v@)),
        None => None,
    }
}

/// A list of ports as the list item holds it.
pub open spec fn ports_item(p: Option<Vec<RawEndpointPort>>) -> Option<Seq<EndpointPortItem>> {
    match p {
        Some(v) => Some(kept_ports(v@)),
        None => None,
    }
}

/// Whether `item` is what the list item holds for the raw subset `raw`.
pub open spec fn subset_item_of(raw: RawEndpointSubset, item: EndpointSubsetItem) -> bool {
    &&& match item.addresses {
        Some(v) => addresses_item(raw.addresses) == Some(v@),
        None => raw.addresses is None,
    }
    &&& match item.not_ready_addresses {
        Some(v) => addresses_item(raw.not_ready_addresses) == Some(v@),
        None => raw.not_ready_addresses is None,
    }
    &&& match item.ports {
        Some(v) => ports_item(raw.ports) == Some(v@),
        None => raw.ports is None,
    }
}

/// Keeps the addresses that have an IP.
fn keep_addresses(v: Vec<RawEndpointAddress>) -> (r: Vec<EndpointAddressItem>)
    ensures
        r@ == kept_addresses(v@),
{
    let ghost all = v@;
    let ghost mut done: Seq<RawEndpointAddress> = Seq::empty();
    let mut rest = v;
    let mut r: Vec<EndpointAddressItem> = Vec::new();
    while rest.len() > 0
        invariant
            done + rest@ == all,
            r@ == kept_addresses(done),
        decreases rest.len(),
    {
        let a = rest.remove(0);
        proof {
            assert(done.push(a) + rest@ =~= all);
            assert(done.push(a).drop_last() =~= done);
            done = done.push(a);
        }
        match a.ip {
            Some(ip) => r.push(EndpointAddressItem { ip }),
            None => {},
        }
    }
    assert(done =~= all);
    r
}

/// Keeps the ports that have a number, cutting it to 32 bits.
fn keep_ports(v: Vec<RawEndpointPort>) -> (r: Vec<EndpointPortItem>)
    ensures
        r@ == kept_ports(v@),
{
    let ghost all = v@;
    let ghost mut done: Seq<RawEndpointPort> = Seq::empty();
    let mut rest = v;
    let mut r: Vec<EndpointPortItem> = Vec::new();
    while rest.len() > 0
        invariant
            done + rest@ == all,
            r@ == kept_ports(done),
        decreases rest.len(),
    {
        let p = rest.remove(0);
        proof {
            assert(done.push(p) + rest@ =~= all);
            assert(done.push(p).drop_last() =~= done);
            done = done.push(p);
        }
        match p.port {
            Some(n) => r.push(EndpointPortItem { port: n as i32, name: p.name, protocol: p.protocol }),
            None => {},
        }
    }
    assert(done =~= all);
    r
}

/// Reads one subset: the addresses and not-ready addresses that have an
/// IP, and the ports that have a number.
pub fn endpoint_subset(raw: RawEndpointSubset) -> (r: EndpointSubsetItem)
    ensures
        subset_item_of(raw, r),
{
    let addresses = match raw.addresses {
        Some(v) => Some(keep_addresses(v)),
        None => None,
    };
    let not_ready_addresses = match raw.not_ready_addresses {
        Some(v) => Some(keep_addresses(v)),
        None => None,
    };
    let ports = match raw.ports {
        Some(v) => Some(keep_ports(v)),
        None => None,
    };
    EndpointSubsetItem { addresses, not_ready_addresses, ports }
}

/// The endpoint subsets of a list item, read from an `Endpoints` object's
/// `subsets` array (`None` when the object has no such array): one item per
/// subset, and none at all in place of an empty list.
pub fn endpoint_subsets(raw: Option<Vec<RawEndpointSubset>>) -> (r: Option<Vec<EndpointSubsetItem>>)
    ensures
        match raw {
            None => r is None,
            Some(v) => if v@.len() == 0 {
                r is None
            } else {
                r matches Some(items) && items@.len() == v@.len() && forall|i: int|
                    0 <= i < v@.len() ==> subset_item_of(v@[i], #[trigger] items@[i])
            },
        },
{
    let v = match raw {
        Some(v) => v,
        None => return None,
    };
    if v.len() == 0 {
        return None;
    }
    let ghost all = v@;
    let ghost mut done: Seq<RawEndpointSubset> = Seq::empty();
    let mut rest = v;
    let mut items: Vec<EndpointSubsetItem> = Vec::new();
    while rest.len() > 0
        invariant
            done + rest@ == all,
            items@.len() == done.len(),
            forall|i: int| 0 <= i < done.len() ==> subset_item_of(done[i], #[trigger] items@[i]),
        decreases rest.len(),
    {
        let s = rest.remove(0);
        proof {
            assert(done.push(s) + rest@ =~= all);
            done = done.push(s);
        }
        items.push(endpoint_subset(s));
    }
    assert(done =~= all);
    Some(items)
}

/// Whether a typed detail belongs to objects of `kind`.
pub open spec fn detail_for_kind(d: ListItemDetail, kind: Seq<char>) -> bool {
    match d {
        ListItemDetail::Pod => kind == "Pod"@,
        ListItemDetail::Deployment => kind == "Deployment"@,
        ListItemDetail::Service => kind == "Service"@,
        ListItemDetail::ReplicaSet => kind == "ReplicaSet"@,
        ListItemDetail::StatefulSet => kind == "StatefulSet"@,
        ListItemDetail::DaemonSet => kind == "DaemonSet"@,
        ListItemDetail::Job => kind == "Job"@,
        ListItemDetail::CronJob => kind == "CronJob"@,
        ListItemDetail::Ingress => kind == "Ingress"@,
        ListItemDetail::Namespace => kind == "Namespace"@,
        ListItemDetail::Node => kind == "Node"@,
        ListItemDetail::PersistentVolume => kind == "PersistentVolume"@,
        ListItemDetail::PersistentVolumeClaim => kind == "PersistentVolumeClaim"@,
        ListItemDetail::StorageClass => kind == "StorageClass"@,
        ListItemDetail::HorizontalPodAutoscaler => kind == "HorizontalPodAutoscaler"@,
        ListItemDetail::PodDisruptionBudget => kind == "PodDisruptionBudget"@,
        ListItemDetail::NetworkPolicy => kind == "NetworkPolicy"@,
        ListItemDetail::ConfigMapData => kind == "ConfigMap"@,
        ListItemDetail::SecretData => kind == "Secret"@,
        ListItemDetail::RoleRules => kind == "Role"@ || kind == "ClusterRole"@,
        ListItemDetail::RoleBindingSubjects => kind == "RoleBinding"@ || kind == "ClusterRoleBinding"@,
        ListItemDetail::ServiceAccountSecrets => kind == "ServiceAccount"@,
        ListItemDetail::EndpointSlice => kind == "EndpointSlice"@,
        ListItemDetail::EndpointSubsets => kind == "Endpoints"@,
        ListItemDetail::Nothing => false,
    }
}

/// The kinds whose list items carry a typed detail.
pub open spec fn has_typed_detail(kind: Seq<char>) -> bool {
    kind == "Pod"@ || kind == "Deployment"@ || kind == "Service"@ || kind == "ReplicaSet"@ || kind == "StatefulSet"@ || kind == "DaemonSet"@ || kind == "Job"@ || kind == "CronJob"@ || kind == "Ingress"@ || kind == "Namespace"@ || kind == "Node"@ || kind == "PersistentVolume"@ || kind == "PersistentVolumeClaim"@ || kind == "StorageClass"@ || kind == "HorizontalPodAutoscaler"@ || kind == "PodDisruptionBudget"@ || kind == "NetworkPolicy"@ || kind == "ConfigMap"@ || kind == "Secret"@ || kind == "Role"@ || kind == "ClusterRole"@ || kind == "RoleBinding"@ || kind == "ClusterRoleBinding"@ || kind == "ServiceAccount"@ || kind == "EndpointSlice"@ || kind == "Endpoints"@
}

/// The detail that a list item carries follows the kind of its resource
/// type in the resource table: a typed detail is only given to a known type,
/// and it is the detail of that type's kind; and every known type whose kind
/// has a typed detail gets one.
pub proof fn lemma_details_follow_kinds(t: Seq<char>)
    ensures
        !(detail_of(t) is Nothing) ==> (find_row(t) matches Some(row) && detail_for_kind(
            detail_of(t),
            row.kind,
        )),
        (find_row(t) matches Some(row) && has_typed_detail(row.kind)) ==> !(detail_of(t) is Nothing),
{
    if t == "pods"@ {
        lemma_find_row_at(0);
        assert(resource_table()[0].resource_type == "pods"@ && resource_table()[0].kind == "Pod"@);
    } else if t == "deployments"@ {
        lemma_find_row_at(1);
        assert(resource_table()[1].resource_type == "deployments"@ && resource_table()[1].kind == "Deployment"@);
    } else if t == "services"@ {
        lemma_find_row_at(8);
        assert(resource_table()[8].resource_type == "services"@ && resource_table()[8].kind == "Service"@);
    } else if t == "replicasets"@ {
        lemma_find_row_at(6);
        assert(resource_table()[6].resource_type == "replicasets"@ && resource_table()[6].kind == "ReplicaSet"@);
    } else if t == "statefulsets"@ {
        lemma_find_row_at(2);
        assert(resource_table()[2].resource_type == "statefulsets"@ && resource_table()[2].kind == "StatefulSet"@);
    } else if t == "daemonsets"@ {
        lemma_find_row_at(3);
        assert(resource_table()[3].resource_type == "daemonsets"@ && resource_table()[3].kind == "DaemonSet"@);
    } else if t == "jobs"@ {
        lemma_find_row_at(4);
        assert(resource_table()[4].resource_type == "jobs"@ && resource_table()[4].kind == "Job"@);
    } else if t == "cronjobs"@ {
        lemma_find_row_at(5);
        assert(resource_table()[5].resource_type == "cronjobs"@ && resource_table()[5].kind == "CronJob"@);
    } else if t == "ingresses"@ {
        lemma_find_row_at(9);
        assert(resource_table()[9].resource_type == "ingresses"@ && resource_table()[9].kind == "Ingress"@);
    } else if t == "namespaces"@ {
        lemma_find_row_at(25);
        assert(resource_table()[25].resource_type == "namespaces"@ && resource_table()[25].kind == "Namespace"@);
    } else if t == "nodes"@ {
        lemma_find_row_at(26);
        assert(resource_table()[26].resource_type == "nodes"@ && resource_table()[26].kind == "Node"@);
    } else if t == "persistentvolumes"@ {
        lemma_find_row_at(17);
        assert(resource_table()[17].resource_type == "persistentvolumes"@ && resource_table()[17].kind == "PersistentVolume"@);
    } else if t == "persistentvolumeclaims"@ {
        lemma_find_row_at(16);
        assert(resource_table()[16].resource_type == "persistentvolumeclaims"@ && resource_table()[16].kind == "PersistentVolumeClaim"@);
    } else if t == "storageclasses"@ {
        lemma_find_row_at(18);
        assert(resource_table()[18].resource_type == "storageclasses"@ && resource_table()[18].kind == "StorageClass"@);
    } else if t == "horizontalpodautoscalers"@ {
        lemma_find_row_at(34);
        assert(resource_table()[34].resource_type == "horizontalpodautoscalers"@ && resource_table()[34].kind == "HorizontalPodAutoscaler"@);
    } else if t == "poddisruptionbudgets"@ {
        lemma_find_row_at(24);
        assert(resource_table()[24].resource_type == "poddisruptionbudgets"@ && resource_table()[24].kind == "PodDisruptionBudget"@);
    } else if t == "networkpolicies"@ {
        lemma_find_row_at(11);
        assert(resource_table()[11].resource_type == "networkpolicies"@ && resource_table()[11].kind == "NetworkPolicy"@);
    } else if t == "configmaps"@ {
        lemma_find_row_at(14);
        assert(resource_table()[14].resource_type == "configmaps"@ && resource_table()[14].kind == "ConfigMap"@);
    } else if t == "secrets"@ {
        lemma_find_row_at(15);
        assert(resource_table()[15].resource_type == "secrets"@ && resource_table()[15].kind == "Secret"@);
    } else if t == "roles"@ {
        lemma_find_row_at(29);
        assert(resource_table()[29].resource_type == "roles"@ && resource_table()[29].kind == "Role"@);
    } else if t == "clusterroles"@ {
        lemma_find_row_at(31);
        assert(resource_table()[31].resource_type == "clusterroles"@ && resource_table()[31].kind == "ClusterRole"@);
    } else if t == "rolebindings"@ {
        lemma_find_row_at(30);
        assert(resource_table()[30].resource_type == "rolebindings"@ && resource_table()[30].kind == "RoleBinding"@);
    } else if t == "clusterrolebindings"@ {
        lemma_find_row_at(32);
        assert(resource_table()[32].resource_type == "clusterrolebindings"@ && resource_table()[32].kind == "ClusterRoleBinding"@);
    } else if t == "serviceaccounts"@ {
        lemma_find_row_at(21);
        assert(resource_table()[21].resource_type == "serviceaccounts"@ && resource_table()[21].kind == "ServiceAccount"@);
    } else if t == "endpointslices"@ {
        lemma_find_row_at(12);
        assert(resource_table()[12].resource_type == "endpointslices"@ && resource_table()[12].kind == "EndpointSlice"@);
    } else if t == "endpoints"@ {
        lemma_find_row_at(13);
        assert(resource_table()[13].resource_type == "endpoints"@ && resource_table()[13].kind == "Endpoints"@);
    }
    lemma_row_index(t);
    match row_index(t) {
        Some(j) => {
            lemma_table_kinds_differ();
        assert(resource_table()[0].kind == "Pod"@);
        assert(resource_table()[1].kind == "Deployment"@);
        assert(resource_table()[8].kind == "Service"@);
        assert(resource_table()[6].kind == "ReplicaSet"@);
        assert(resource_table()[2].kind == "StatefulSet"@);
        assert(resource_table()[3].kind == "DaemonSet"@);
        assert(resource_table()[4].kind == "Job"@);
        assert(resource_table()[5].kind == "CronJob"@);
        assert(resource_table()[9].kind == "Ingress"@);
        assert(resource_table()[25].kind == "Namespace"@);
        assert(resource_table()[26].kind == "Node"@);
        assert(resource_table()[17].kind == "PersistentVolume"@);
        assert(resource_table()[16].kind == "PersistentVolumeClaim"@);
        assert(resource_table()[18].kind == "StorageClass"@);
        assert(resource_table()[34].kind == "HorizontalPodAutoscaler"@);
        assert(resource_table()[24].kind == "PodDisruptionBudget"@);
        assert(resource_table()[11].kind == "NetworkPolicy"@);
        assert(resource_table()[14].kind == "ConfigMap"@);
        assert(resource_table()[15].kind == "Secret"@);
        assert(resource_table()[29].kind == "Role"@);
        assert(resource_table()[31].kind == "ClusterRole"@);
        assert(resource_table()[30].kind == "RoleBinding"@);
        assert(resource_table()[32].kind == "ClusterRoleBinding"@);
        assert(resource_table()[21].kind == "ServiceAccount"@);
        assert(resource_table()[12].kind == "EndpointSlice"@);
        assert(resource_table()[13].kind == "Endpoints"@);
        },
        None => {},
    }
}

} // verus!
