//! What a watch is started on: the kind and API version of a resource type,
//! the key of a watch, and which part of the cluster it covers.
use vstd::prelude::*;
use crate::k8s::catalog::{find_row, lookup_row, resource_row, lemma_row_index, resource_table};
use crate::k8s::errors::K8sWatchError;
use crate::k8s::watch_components::{requested_namespaces, watch_key_text, WatchId};
use crate::ordering::{lex_order, views};
use crate::table::KeyedTable;
use crate::text::owned;

verus! {

/// The kind and API version of a resource type; an unknown resource type is
/// its own kind, in API version `v1`.
pub open spec fn kind_and_api_version(resource_type: Seq<char>) -> (Seq<char>, Seq<char>) {
    match find_row(resource_type) {
        Some(row) => (row.kind, row.api_version),
        None => (resource_type, "v1"@),
    }
}

/// The kind and API version of `resource_type` (e.g. `Deployment` and
/// `apps/v1` for `deployments`). An unknown resource type is returned
/// unchanged as the kind, with API version `v1`.
pub fn resource_type_to_kind_and_api_version(resource_type: &str) -> (r: (&str, &str))
    ensures
        r.0@ == kind_and_api_version(resource_type@).0,
        r.1@ == kind_and_api_version(resource_type@).1,
{
    proof {
        lemma_row_index(resource_type@);
    }
    match lookup_row(resource_type) {
        Some(i) => {
            let row = resource_row(i);
            (row.3, row.4)
        },
        None => (resource_type, "v1"),
    }
}

/// The key under which a watch manager tracks a watch on `resource_type`
/// over `namespaces`: `type:all` for no namespaces, otherwise the sorted
/// namespaces joined by commas.
pub fn watch_key(resource_type: &str, namespaces: Option<Vec<String>>) -> (r: String)
    ensures
        r@ == watch_key_text(
            resource_type@,
            requested_namespaces(namespaces).sort_by(lex_order()),
        ),
{
    WatchId::new(owned(resource_type), namespaces).to_key()
}

/// Which objects a watch covers.
#[derive(Debug)]
pub enum WatchTarget {
    /// Every object of the type, across the cluster.
    AllNamespaces,
    /// The objects in one namespace.
    Namespace(String),
    /// The objects in each of several namespaces, one watch per namespace.
    Namespaces(Vec<String>),
}

/// What a watch on `resource_type` over the requested namespaces covers:
/// cluster-wide types and requests that name no namespace cover the whole
/// cluster; one named namespace is watched alone; several are watched each.
pub open spec fn watch_target_of(
    is_namespaced: bool,
    namespaces: Option<Vec<String>>,
) -> (Seq<Seq<char>>, int) {
    let ns = requested_namespaces(namespaces);
    if !is_namespaced || ns.len() == 0 {
        (Seq::empty(), 0)
    } else if ns.len() == 1 {
        (ns, 1)
    } else {
        (ns, 2)
    }
}

/// The plan for a watch on `resource_type` over `namespaces`; an unknown
/// resource type gets none.
pub fn plan_watch(resource_type: &str, namespaces: Option<Vec<String>>) -> (r: Option<WatchTarget>)
    ensures
        match find_row(resource_type@) {
            None => r is None,
            Some(row) => {
                let (ns, shape) = watch_target_of(row.is_namespaced, namespaces);
                match r {
                    Some(WatchTarget::AllNamespaces) => shape == 0,
                    Some(WatchTarget::Namespace(n)) => shape == 1 && n@ == ns[0],
                    Some(WatchTarget::Namespaces(v)) => shape == 2 && views(v@) == ns,
                    None => false,
                }
            },
        },
{
    proof {
        lemma_row_index(resource_type@);
    }
    let i = match lookup_row(resource_type) {
        Some(i) => i,
        None => return None,
    };
    let row = resource_row(i);
    let ghost requested = requested_namespaces(namespaces);
    let ns = match namespaces {
        Some(v) => v,
        None => Vec::new(),
    };
    assert(views(ns@) =~= requested);
    if !row.1 || ns.len() == 0 {
        Some(WatchTarget::AllNamespaces)
    } else if ns.len() == 1 {
        Some(WatchTarget::Namespace(owned(ns[0].as_str())))
    } else {
        Some(WatchTarget::Namespaces(ns))
    }
}

/// Whether the shared cache watches `resource_type` in the given namespace
/// (`Some`) or across the cluster (`None`); an unknown resource type is not
/// watched at all (`Err`).
pub fn plan_scoped_watch(resource_type: &str, namespace: Option<String>) -> (r: Result<
    Option<String>,
    (),
>)
    ensures
        match find_row(resource_type@) {
            None => r is Err,
            Some(row) => r == Ok::<Option<String>, ()>(
                if row.is_namespaced {
                    namespace
                } else {
                    None
                },
            ),
        },
{
    proof {
        lemma_row_index(resource_type@);
    }
    match lookup_row(resource_type) {
        Some(i) => {
            let row = resource_row(i);
            if row.1 {
                Ok(namespace)
            } else {
                Ok(None)
            }
        },
        None => Err(()),
    }
}

/// How the optimised watch manager answers a request to start a watch,
/// given the keys of the watches it runs: an unknown resource type is
/// refused; a watch that already runs is left as it is and the request
/// succeeds with nothing to start (`Ok(None)`); otherwise the key of the new
/// watch is returned. The running watches are not changed.
pub fn admit_watch<H>(
    active: &KeyedTable<H>,
    resource_type: &str,
    namespaces: Option<Vec<String>>,
) -> (r: Result<Option<String>, K8sWatchError>)
    ensures
        find_row(resource_type@) is None ==> (r matches Err(
            K8sWatchError::UnsupportedResourceType { resource_type: t },
        ) && t@ == resource_type@),
        find_row(resource_type@) is Some ==> ({
            let key = watch_key_text(
                resource_type@,
                requested_namespaces(namespaces).sort_by(lex_order()),
            );
            if active@.contains_key(key) {
                r matches Ok(None)
            } else {
                r matches Ok(Some(k)) && k@ == key
            }
        }),
{
    proof {
        lemma_row_index(resource_type@);
    }
    if lookup_row(resource_type).is_none() {
        return Err(K8sWatchError::unsupported_resource(resource_type));
    }
    let key = watch_key(resource_type, namespaces);
    if active.contains_key(key.as_str()) {
        return Ok(None);
    }
    Ok(Some(key))
}


/// What a watch stream delivers next.
#[derive(Debug, Clone, Copy, PartialEq, Eq, Structural)]
pub enum StreamEvent {
    /// An object was created or changed; `converted` says whether it could
    /// be made into a list item.
    Apply { converted: bool },
    /// An object was deleted.
    Delete { converted: bool },
    /// An object of the initial listing.
    InitApply { converted: bool },
    /// The initial listing starts.
    Init,
    /// The initial listing is complete.
    InitDone,
    /// The stream reported an error.
    Error,
    /// The stream ended.
    Ended,
    /// Nothing came within the timeout.
    TimedOut,
}

/// What a watch reports to the user interface.
#[derive(Debug, Clone, Copy, PartialEq, Eq, Structural)]
pub enum WatchEmission {
    Added,
    Deleted,
}

/// What a watch does after an event: what it reports, and whether it goes
/// on watching.
#[derive(Debug, Clone, Copy, PartialEq, Eq, Structural)]
pub struct WatchStep {
    pub emission: Option<WatchEmission>,
    pub keep_watching: bool,
}

/// The step of a watch after an event: objects that could be converted are
/// reported as added or deleted, the initial listing's markers are passed
/// over, and an error, the end of the stream or a timeout end the watch.
pub fn watch_step(event: StreamEvent) -> (r: WatchStep)
    ensures
        r == match event {
            StreamEvent::Apply { converted } | StreamEvent::InitApply { converted } => WatchStep {
                emission: if converted {
                    Some(WatchEmission::Added)
                } else {
                    None
                },
                keep_watching: true,
            },
            StreamEvent::Delete { converted } => WatchStep {
                emission: if converted {
                    Some(WatchEmission::Deleted)
                } else {
                    None
                },
                keep_watching: true,
            },
            StreamEvent::Init | StreamEvent::InitDone => WatchStep { emission: None, keep_watching: true },
            StreamEvent::Error | StreamEvent::Ended | StreamEvent::TimedOut => WatchStep {
                emission: None,
                keep_watching: false,
            },
        },
{
    match event {
        StreamEvent::Apply { converted } | StreamEvent::InitApply { converted } => WatchStep {
            emission: if converted {
                Some(WatchEmission::Added)
            } else {
                None
            },
            keep_watching: true,
        },
        StreamEvent::Delete { converted } => WatchStep {
            emission: if converted {
                Some(WatchEmission::Deleted)
            } else {
                None
            },
            keep_watching: true,
        },
        StreamEvent::Init | StreamEvent::InitDone => WatchStep { emission: None, keep_watching: true },
        StreamEvent::Error | StreamEvent::Ended | StreamEvent::TimedOut => WatchStep {
            emission: None,
            keep_watching: false,
        },
    }
}

} // verus!
