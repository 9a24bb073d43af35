//! Commands on resource types and resources: the categories and the
//! description of resource types, the checks before listing, reading and
//! deleting, and the CronJob operations.
use vstd::prelude::*;
use crate::errors::{AppError, K8sError};
use crate::k8s::resource_registry::{
    category_members, copy_strings, MetadataView, ResourceMetadata, ResourceRegistry,
};
use crate::k8s::resources::K8sOwnerReference;
use crate::numbers::{decimal, push_decimal};
use crate::ordering::{lex_order, push_str, sort_strings, views};
use crate::table::KeyedTable;
use crate::text::{concat, owned};
use vstd::relations::sorted_by;

verus! {

/// A resource type as the user interface describes it.
#[derive(Debug)]
pub struct K8sResourceInfo {
    pub name: String,
    pub kind: String,
    pub api_version: String,
    pub namespaced: bool,
    pub short_names: Vec<String>,
    pub scalable: bool,
    pub watchable: bool,
}

/// Whether `info` describes the resource type with metadata `m`: its name
/// is the kind, and the other fields are the metadata's.
pub open spec fn describes(info: K8sResourceInfo, m: MetadataView) -> bool {
    &&& info.name@ == m.kind
    &&& info.kind@ == m.kind
    &&& info.api_version@ == m.api_version
    &&& info.namespaced == m.is_namespaced
    &&& views(info.short_names@) == m.short_names
    &&& info.scalable == m.scalable
    &&& info.watchable == m.watchable
}

/// The description of a resource type from its metadata.
pub fn resource_info(m: &ResourceMetadata) -> (r: K8sResourceInfo)
    ensures
        describes(r, m@),
{
    K8sResourceInfo {
        name: owned(m.kind.as_str()),
        kind: owned(m.kind.as_str()),
        api_version: owned(m.api_version.as_str()),
        namespaced: m.is_namespaced,
        short_names: copy_strings(&m.short_names),
        scalable: m.scalable,
        watchable: m.watchable,
    }
}

/// A category of resource types with their descriptions.
#[derive(Debug)]
pub struct ResourceCategory {
    pub name: String,
    pub resources: Vec<K8sResourceInfo>,
}

/// The names of a list of categories.
pub open spec fn category_names(s: Seq<ResourceCategory>) -> Seq<Seq<char>> {
    s.map_values(|c: ResourceCategory| c.name@)
}

/// Whether `infos` describe, in order, the resource types with metadata `ms`.
pub open spec fn describes_all(infos: Seq<K8sResourceInfo>, ms: Seq<MetadataView>) -> bool {
    infos.len() == ms.len() && forall|i: int| 0 <= i < infos.len() ==> describes(#[trigger] infos[i], ms[i])
}

/// Describes a list of resource types.
fn describe_all(ms: &Vec<ResourceMetadata>) -> (r: Vec<K8sResourceInfo>)
    ensures
        describes_all(r@, ms@.map_values(|x: ResourceMetadata| x@)),
{
    let mut r: Vec<K8sResourceInfo> = Vec::new();
    let mut i: usize = 0;
    while i < ms.len()
        invariant
            i <= ms.len(),
            r@.len() == i,
            forall|j: int| 0 <= j < i ==> describes(#[trigger] r@[j], ms@[j]@),
        decreases ms.len() - i,
    {
        r.push(resource_info(&ms[i]));
        i = i + 1;
    }
    r
}

/// Lists the categories of the registered resource types.
pub struct GetResourceCategoriesCommand;

impl GetResourceCategoriesCommand {
    /// The categories of the resource types in `registry`, sorted by name,
    /// each with the descriptions of its types in registration order.
    pub fn execute(&self, registry: &ResourceRegistry) -> (r: Result<Vec<ResourceCategory>, AppError>)
        ensures
            r matches Ok(cats) && {
                let names = category_names(cats@);
                &&& sorted_by(names, lex_order())
                &&& names.no_duplicates()
                &&& forall|c: Seq<char>|
                    names.contains(c) <==> #[trigger] category_members(
                        registry.type_order(),
                        registry@,
                        c,
                    ).len() > 0
                &&& forall|i: int|
                    0 <= i < cats@.len() ==> describes_all(
                        (#[trigger] cats@[i]).resources@,
                        category_members(registry.type_order(), registry@, cats@[i].name@),
                    )
            },
    {
        let table = registry.get_resources_by_category();
        let keys = table.keys();
        let sorted = sort_strings(keys);
        proof {
            views(sorted@).to_multiset_ensures();
            views(keys@).to_multiset_ensures();
            views(keys@).lemma_multiset_has_no_duplicates();
            assert forall|x: Seq<char>| views(sorted@).to_multiset().contains(x) implies views(
                sorted@,
            ).to_multiset().count(x) == 1 by {}
            views(sorted@).lemma_multiset_has_no_duplicates_conv();
            assert forall|c: Seq<char>| views(sorted@).contains(c) <==> table@.contains_key(c) by {
                assert(views(sorted@).contains(c) == (views(sorted@).to_multiset().count(c) > 0));
                assert(views(keys@).contains(c) == (views(keys@).to_multiset().count(c) > 0));
                assert(table.key_list().to_set().contains(c) == table.key_list().contains(c));
            }
        }
        let mut cats: Vec<ResourceCategory> = Vec::new();
        let mut i: usize = 0;
        while i < sorted.len()
            invariant
                i <= sorted.len(),
                cats@.len() == i,
                forall|c: Seq<char>| views(sorted@).contains(c) <==> table@.contains_key(c),
                forall|j: int| 0 <= j < i ==> (#[trigger] cats@[j]).name@ == views(sorted@)[j],
                forall|j: int|
                    0 <= j < i ==> describes_all(
                        (#[trigger] cats@[j]).resources@,
                        category_members(registry.type_order(), registry@, cats@[j].name@),
                    ),
                forall|c: Seq<char>|
                    #[trigger] table@.contains_key(c) <==> category_members(
                        registry.type_order(),
                        registry@,
                        c,
                    ).len() > 0,
                forall|c: Seq<char>|
                    #[trigger] table@.contains_key(c) ==> crate::k8s::resource_registry::metadata_views(
                        table@[c]@,
                    ) == category_members(registry.type_order(), registry@, c),
            decreases sorted.len() - i,
        {
            let name = sorted[i].as_str();
            proof {
                assert(views(sorted@)[i as int] == name@);
                assert(views(sorted@).contains(name@));
            }
            let members = match table.get(name) {
                Some(v) => v,
                None => {
                    assert(false);
                    return Ok(cats);
                },
            };
            let infos = describe_all(members);
            proof {
                assert(members@.map_values(|x: ResourceMetadata| x@)
                    == crate::k8s::resource_registry::metadata_views(members@));
            }
            cats.push(ResourceCategory { name: owned(name), resources: infos });
            i = i + 1;
        }
        proof {
            assert(category_names(cats@) =~= views(sorted@));
        }
        Ok(cats)
    }
}

/// Describes one resource type.
pub struct GetResourceInfoCommand {
    pub resource_type: String,
}

impl GetResourceInfoCommand {
    /// The description of the resource type in `registry`; an unknown type
    /// is refused as invalid.
    pub fn execute(&self, registry: &ResourceRegistry) -> (r: Result<K8sResourceInfo, AppError>)
        ensures
            match r {
                Ok(info) => registry@.contains_key(self.resource_type@) && describes(
                    info,
                    registry@[self.resource_type@],
                ),
                Err(e) => !registry@.contains_key(self.resource_type@) && (e matches AppError::Kubernetes(
                    K8sError::InvalidResourceType { resource_type },
                ) && resource_type@ == self.resource_type@),
            },
    {
        match registry.get_handler(self.resource_type.as_str()) {
            Ok(h) => Ok(resource_info(h.metadata())),
            Err(e) => Err(AppError::Kubernetes(e)),
        }
    }
}

/// The check shared by the commands on one resource type: the type must be
/// registered.
fn require_registered(registry: &ResourceRegistry, resource_type: &str) -> (r: Result<(), K8sError>)
    ensures
        registry@.contains_key(resource_type@) ==> r is Ok,
        !registry@.contains_key(resource_type@) ==> (r matches Err(
            K8sError::InvalidResourceType { resource_type: t },
        ) && t@ == resource_type@),
{
    if !registry.is_registered(resource_type) {
        return Err(K8sError::InvalidResourceType { resource_type: owned(resource_type) });
    }
    Ok(())
}

/// The message of a request on a namespaced resource without a namespace.
pub open spec fn namespace_required_text(resource_type: Seq<char>) -> Seq<char> {
    "Namespace required for namespaced resource '"@ + resource_type + "'"@
}

/// Whether `r` is the outcome of checking a request on one resource of
/// `resource_type` in `namespace`: the type must be registered, and a
/// namespaced type needs a namespace.
pub open spec fn resource_request_outcome(
    registry: Map<Seq<char>, MetadataView>,
    resource_type: Seq<char>,
    namespace: Option<String>,
    r: Result<(), K8sError>,
) -> bool {
    if !registry.contains_key(resource_type) {
        r matches Err(K8sError::InvalidResourceType { resource_type: t }) && t@ == resource_type
    } else if registry[resource_type].is_namespaced && namespace is None {
        r matches Err(K8sError::ValidationFailed { message }) && message@ == namespace_required_text(
            resource_type,
        )
    } else {
        r is Ok
    }
}

/// Checks a request on one resource.
fn check_resource_request(registry: &ResourceRegistry, resource_type: &str, namespace: &Option<String>) -> (r:
    Result<(), K8sError>)
    ensures
        resource_request_outcome(registry@, resource_type@, *namespace, r),
{
    let h = match registry.get_handler(resource_type) {
        Ok(h) => h,
        Err(e) => return Err(e),
    };
    if h.metadata().is_namespaced && namespace.is_none() {
        let mut message = owned("Namespace required for namespaced resource '");
        push_str(&mut message, resource_type);
        push_str(&mut message, "'");
        return Err(K8sError::ValidationFailed { message });
    }
    Ok(())
}

/// Lists the resources of a type.
pub struct ListResourcesCommand {
    pub resource_type: String,
    pub namespace: Option<String>,
    pub label_selector: Option<String>,
}

impl ListResourcesCommand {
    /// The type must be registered.
    pub fn validate(&self, registry: &ResourceRegistry) -> (r: Result<(), K8sError>)
        ensures
            registry@.contains_key(self.resource_type@) ==> r is Ok,
            !registry@.contains_key(self.resource_type@) ==> (r matches Err(
                K8sError::InvalidResourceType { resource_type: t },
            ) && t@ == self.resource_type@),
    {
        require_registered(registry, self.resource_type.as_str())
    }
}

/// Reads one resource.
pub struct GetResourceCommand {
    pub resource_type: String,
    pub name: String,
    pub namespace: Option<String>,
}

impl GetResourceCommand {
    /// The type must be registered, and a namespaced type needs a namespace.
    pub fn validate(&self, registry: &ResourceRegistry) -> (r: Result<(), K8sError>)
        ensures
            resource_request_outcome(registry@, self.resource_type@, self.namespace, r),
    {
        check_resource_request(registry, self.resource_type.as_str(), &self.namespace)
    }
}

/// Deletes one resource.
pub struct DeleteResourceCommand {
    pub resource_type: String,
    pub name: String,
    pub namespace: Option<String>,
}

impl DeleteResourceCommand {
    /// The type must be registered, and a namespaced type needs a namespace.
    pub fn validate(&self, registry: &ResourceRegistry) -> (r: Result<(), K8sError>)
        ensures
            resource_request_outcome(registry@, self.resource_type@, self.namespace, r),
    {
        check_resource_request(registry, self.resource_type.as_str(), &self.namespace)
    }
}

/// The check of the CronJob commands: a CronJob lives in a namespace.
fn require_cronjob_namespace(namespace: &Option<String>) -> (r: Result<(), K8sError>)
    ensures
        namespace is Some ==> r is Ok,
        namespace is None ==> (r matches Err(K8sError::ValidationFailed { message })
            && message@ == "Namespace required for CronJob"@),
{
    if namespace.is_none() {
        return Err(K8sError::ValidationFailed { message: owned("Namespace required for CronJob") });
    }
    Ok(())
}

/// Suspends or resumes a CronJob.
pub struct ToggleCronJobSuspendCommand {
    pub name: String,
    pub namespace: Option<String>,
    pub suspend: bool,
}

impl ToggleCronJobSuspendCommand {
    /// A namespace is required.
    pub fn validate(&self) -> (r: Result<(), K8sError>)
        ensures
            self.namespace is Some ==> r is Ok,
            self.namespace is None ==> (r matches Err(K8sError::ValidationFailed { message })
                && message@ == "Namespace required for CronJob"@),
    {
        require_cronjob_namespace(&self.namespace)
    }

    /// The error of a patch that the cluster refused, with its error text.
    pub fn patch_failed(&self, error: &str) -> (r: K8sError)
        ensures
            r matches K8sError::ApiError { message } && message@
                == "Failed to update CronJob suspend state: "@ + error@,
    {
        K8sError::ApiError { message: concat("Failed to update CronJob suspend state: ", error) }
    }
}

/// The labels of a manually triggered Job: the template's, with `cronjob`
/// set to the CronJob's name and `triggered-by` to `manual`.
pub open spec fn manual_job_labels(template: Map<Seq<char>, String>, cronjob: Seq<char>) -> Map<
    Seq<char>,
    Seq<char>,
> {
    Map::new(|k: Seq<char>| template.contains_key(k), |k: Seq<char>| template[k]@).insert(
        "cronjob"@,
        cronjob,
    ).insert("triggered-by"@, "manual"@)
}

/// A Job to be created from a CronJob's template.
#[derive(Debug)]
pub struct ManualJobPlan {
    pub name: String,
    pub namespace: String,
    pub labels: KeyedTable<String>,
    pub owner_references: Option<Vec<K8sOwnerReference>>,
    pub backoff_limit: Option<i32>,
}

/// The values of a table of strings.
pub open spec fn string_values(m: Map<Seq<char>, String>) -> Map<Seq<char>, Seq<char>> {
    Map::new(|k: Seq<char>| m.contains_key(k), |k: Seq<char>| m[k]@)
}

/// Runs a CronJob now by creating a Job from its template.
pub struct TriggerCronJobCommand {
    pub name: String,
    pub namespace: Option<String>,
}

impl TriggerCronJobCommand {
    /// A namespace is required.
    pub fn validate(&self) -> (r: Result<(), K8sError>)
        ensures
            self.namespace is Some ==> r is Ok,
            self.namespace is None ==> (r matches Err(K8sError::ValidationFailed { message })
                && message@ == "Namespace required for CronJob"@),
    {
        require_cronjob_namespace(&self.namespace)
    }

    /// The error of reading the CronJob, with the cluster's error text.
    pub fn fetch_failed(&self, error: &str) -> (r: K8sError)
        ensures
            r matches K8sError::ApiError { message } && message@ == "Failed to get CronJob "@
                + self.name@ + ": "@ + error@,
    {
        let mut message = owned("Failed to get CronJob ");
        push_str(&mut message, self.name.as_str());
        push_str(&mut message, ": ");
        push_str(&mut message, error);
        K8sError::ApiError { message }
    }

    /// The error of creating the Job, with the cluster's error text.
    pub fn create_failed(&self, error: &str) -> (r: K8sError)
        ensures
            r matches K8sError::ApiError { message } && message@ == "Failed to create Job from CronJob "@
                + self.name@ + ": "@ + error@,
    {
        let mut message = owned("Failed to create Job from CronJob ");
        push_str(&mut message, self.name.as_str());
        push_str(&mut message, ": ");
        push_str(&mut message, error);
        K8sError::ApiError { message }
    }

    /// The Job to create from the CronJob: named after it with `-manual-`
    /// and the time in seconds, in its namespace, with the template's labels
    /// marked as a manual run of this CronJob, owned by the CronJob when it
    /// has an identifier, and retried at most three times unless the
    /// template says otherwise. A CronJob without a spec is refused.
    pub fn plan_job(
        &self,
        now_secs: u64,
        has_spec: bool,
        template_labels: Option<KeyedTable<String>>,
        template_backoff_limit: Option<i32>,
        cronjob_uid: Option<String>,
    ) -> (r: Result<ManualJobPlan, K8sError>)
        requires
            self.namespace is Some,
        ensures
            !has_spec ==> (r matches Err(K8sError::ValidationFailed { message })
                && message@ == "CronJob has no spec"@),
            has_spec ==> (r matches Ok(plan) && {
                &&& plan.name@ == self.name@ + "-manual-"@ + decimal(now_secs as nat)
                &&& plan.namespace@ == self.namespace->0@
                &&& string_values(plan.labels@) == manual_job_labels(
                    match template_labels {
                        Some(t) => t@,
                        None => Map::empty(),
                    },
                    self.name@,
                )
                &&& plan.backoff_limit == match template_backoff_limit {
                    Some(b) => Some(b),
                    None => Some(3i32),
                }
                &&& match cronjob_uid {
                    None => plan.owner_references is None,
                    Some(uid) => plan.owner_references matches Some(refs) && refs@.len() == 1 && {
                        let o = refs@[0];
                        &&& o.api_version@ == "batch/v1"@
                        &&& o.kind@ == "CronJob"@
                        &&& o.name@ == self.name@
                        &&& o.uid@ == uid@
                        &&& o.controller == Some(false)
                        &&& o.block_owner_deletion == Some(false)
                    },
                }
            }),
    {
        if !has_spec {
            return Err(K8sError::ValidationFailed { message: owned("CronJob has no spec") });
        }
        let namespace = match &self.namespace {
            Some(ns) => owned(ns.as_str()),
            None => owned(""),
        };
        let mut name = owned(self.name.as_str());
        push_str(&mut name, "-manual-");
        push_decimal(&mut name, now_secs);
        let mut labels = match template_labels {
            Some(t) => t,
            None => KeyedTable::new(),
        };
        let ghost t0 = labels@;
        labels.insert(owned("cronjob"), owned(self.name.as_str()));
        labels.insert(owned("triggered-by"), owned("manual"));
        proof {
            assert(string_values(labels@) =~= manual_job_labels(t0, self.name@));
        }
        let backoff_limit = match template_backoff_limit {
            Some(b) => Some(b),
            None => Some(3i32),
        };
        let owner_references = match cronjob_uid {
            Some(uid) => {
                let mut refs: Vec<K8sOwnerReference> = Vec::new();
                refs.push(
                    K8sOwnerReference {
                        api_version: owned("batch/v1"),
                        kind: owned("CronJob"),
                        name: owned(self.name.as_str()),
                        uid,
                        controller: Some(false),
                        block_owner_deletion: Some(false),
                    },
                );
                Some(refs)
            },
            None => None,
        };
        Ok(ManualJobPlan { name, namespace, labels, owner_references, backoff_limit })
    }
}

} // verus!
