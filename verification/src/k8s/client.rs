//! The contexts of the kubeconfig as the application lists them, and the
//! choices made when connecting.
use vstd::prelude::*;
use crate::text::{concat, owned};

verus! {

/// A context of the kubeconfig.
#[derive(Debug)]
pub struct K8sContext {
    pub name: String,
    pub cluster: String,
    pub user: String,
    pub namespace: Option<String>,
}

/// The context part of a named kubeconfig entry: cluster, user and
/// namespace.
#[derive(Debug)]
pub struct ContextEntry {
    pub cluster: String,
    pub user: Option<String>,
    pub namespace: Option<String>,
}

/// The context listed for an entry: its user, or `unknown` when it names
/// none.
pub open spec fn listed_context(name: String, e: ContextEntry, c: K8sContext) -> bool {
    &&& c.name == name
    &&& c.cluster == e.cluster
    &&& match e.user {
        Some(u) => c.user == u,
        None => c.user@ == "unknown"@,
    }
    &&& c.namespace == e.namespace
}

/// The entries that have a context part, in order.
pub open spec fn with_context(s: Seq<(String, Option<ContextEntry>)>) -> Seq<(String, ContextEntry)>
    decreases s.len(),
{
    if s.len() == 0 {
        Seq::empty()
    } else {
        let rest = with_context(s.drop_last());
        match s.last().1 {
            Some(e) => rest.push((s.last().0, e)),
            None => rest,
        }
    }
}

/// The contexts of the kubeconfig's named entries, in order, skipping the
/// entries without a context part.
pub fn contexts_from(entries: Vec<(String, Option<ContextEntry>)>) -> (r: Vec<K8sContext>)
    ensures
        r@.len() == with_context(entries@).len(),
        forall|i: int|
            0 <= i < r@.len() ==> listed_context(
                with_context(entries@)[i].0,
                with_context(entries@)[i].1,
                #[trigger] r@[i],
            ),
{
    let ghost all = entries@;
    let ghost mut done: Seq<(String, Option<ContextEntry>)> = Seq::empty();
    let mut rest = entries;
    let mut r: Vec<K8sContext> = Vec::new();
    while rest.len() > 0
        invariant
            done + rest@ == all,
            r@.len() == with_context(done).len(),
            forall|i: int|
                0 <= i < r@.len() ==> listed_context(
                    with_context(done)[i].0,
                    with_context(done)[i].1,
                    #[trigger] r@[i],
                ),
        decreases rest.len(),
    {
        let x = rest.remove(0);
        proof {
            assert(done.push(x) + rest@ =~= all);
            assert(done.push(x).drop_last() =~= done);
            done = done.push(x);
        }
        let (name, entry) = x;
        match entry {
            Some(e) => {
                let user = match e.user {
                    Some(u) => u,
                    None => owned("unknown"),
                };
                r.push(K8sContext { name, cluster: e.cluster, user, namespace: e.namespace });
            },
            None => {},
        }
    }
    assert(done =~= all);
    r
}

/// The current context's name, or `default` when the kubeconfig names
/// none.
pub fn current_context_name(current: Option<String>) -> (r: String)
    ensures
        match current {
            Some(c) => r == c,
            None => r@ == "default"@,
        },
{
    match current {
        Some(c) => c,
        None => owned("default"),
    }
}

/// The context to connect with: the named one, or the kubeconfig's current
/// one when the name is empty.
pub fn context_override(context_name: &str) -> (r: Option<String>)
    ensures
        context_name@.len() == 0 ==> r is None,
        context_name@.len() > 0 ==> (r matches Some(c) && c@ == context_name@),
{
    if context_name.unicode_len() == 0 {
        None
    } else {
        Some(owned(context_name))
    }
}

/// The error of a kubeconfig that could not be read or parsed.
pub fn kubeconfig_error(error: &str) -> (r: String)
    ensures
        r@ == "Failed to read or parse kubeconfig: "@ + error@,
{
    concat("Failed to read or parse kubeconfig: ", error)
}

/// The error of a request made before connecting.
pub fn not_connected_error() -> (r: String)
    ensures
        r@ == "K8s client not initialized"@,
{
    owned("K8s client not initialized")
}

} // verus!
