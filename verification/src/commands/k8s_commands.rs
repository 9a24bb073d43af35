//! Commands on the connection to the cluster: namespaces, contexts, and
//! connecting, with the errors each reports.
use vstd::prelude::*;
use crate::errors::{AppError, K8sError, StateError};
use crate::ordering::views;
use crate::text::{concat, owned};

verus! {

/// The names that are present, in order.
pub open spec fn present_names(s: Seq<Option<String>>) -> Seq<Seq<char>>
    decreases s.len(),
{
    if s.len() == 0 {
        Seq::empty()
    } else {
        let rest = present_names(s.drop_last());
        match s.last() {
            Some(n) => rest.push(n@),
            None => rest,
        }
    }
}

/// Lists the namespaces of the cluster.
pub struct GetNamespacesCommand;

impl GetNamespacesCommand {
    /// Nothing to check.
    pub fn validate(&self) -> (r: Result<(), K8sError>)
        ensures
            r is Ok,
    {
        Ok(())
    }

    /// The names of the listed namespaces, skipping those without one.
    pub fn namespace_names(&self, names: Vec<Option<String>>) -> (r: Vec<String>)
        ensures
            views(r@) == present_names(names@),
    {
        let ghost all = names@;
        let ghost mut done: Seq<Option<String>> = Seq::empty();
        let mut rest = names;
        let mut r: Vec<String> = Vec::new();
        while rest.len() > 0
            invariant
                done + rest@ == all,
                views(r@) == present_names(done),
            decreases rest.len(),
        {
            let n = rest.remove(0);
            proof {
                assert(done.push(n) + rest@ =~= all);
                assert(done.push(n).drop_last() =~= done);
                done = done.push(n);
            }
            match n {
                Some(s) => {
                    let ghost before = r@;
                    r.push(s);
                    assert(views(r@) =~= views(before).push(s@));
                },
                None => {},
            }
        }
        assert(done =~= all);
        r
    }

    /// The error of a listing that the cluster refused.
    pub fn list_failed(&self, error: &str) -> (r: K8sError)
        ensures
            r matches K8sError::ApiError { message } && message@ == "Failed to list namespaces: "@
                + error@,
    {
        K8sError::ApiError { message: concat("Failed to list namespaces: ", error) }
    }
}

/// The error of managers that could not be set up after connecting.
pub fn managers_failed(message: String) -> (r: AppError)
    ensures
        r matches AppError::State(StateError::InitializationFailed { step, message: m })
            && step@ == "manager_initialization"@ && m == message,
{
    AppError::State(StateError::InitializationFailed { step: owned("manager_initialization"), message })
}

/// Connects to the cluster of the current context.
pub struct ConnectK8sCommand;

impl ConnectK8sCommand {
    /// The error of a connection that failed.
    pub fn connect_failed(&self, message: String) -> (r: AppError)
        ensures
            r matches AppError::Kubernetes(K8sError::ConnectionFailed { message: m }) && m == message,
    {
        AppError::Kubernetes(K8sError::ConnectionFailed { message })
    }
}

/// Connects to the cluster of a named context.
pub struct ConnectK8sWithContextCommand {
    pub context_name: String,
}

impl ConnectK8sWithContextCommand {
    /// The error of a switch to the context that failed.
    pub fn connect_failed(&self, message: String) -> (r: AppError)
        ensures
            r matches AppError::Kubernetes(K8sError::ContextSwitchFailed { context, message: m })
                && context@ == self.context_name@ && m == message,
    {
        AppError::Kubernetes(
            K8sError::ContextSwitchFailed { context: owned(self.context_name.as_str()), message },
        )
    }
}

/// Lists the contexts of the kubeconfig.
pub struct GetK8sContextsCommand;

impl GetK8sContextsCommand {
    /// The error of contexts that could not be read.
    pub fn read_failed(&self, error: &str) -> (r: AppError)
        ensures
            r matches AppError::Kubernetes(K8sError::ApiError { message }) && message@
                == "Failed to get contexts: "@ + error@,
    {
        AppError::Kubernetes(K8sError::ApiError { message: concat("Failed to get contexts: ", error) })
    }
}

/// Names the current context of the kubeconfig.
pub struct GetCurrentK8sContextCommand;

impl GetCurrentK8sContextCommand {
    /// The error of a current context that could not be read.
    pub fn read_failed(&self, error: &str) -> (r: AppError)
        ensures
            r matches AppError::Kubernetes(K8sError::ApiError { message }) && message@
                == "Failed to get current context: "@ + error@,
    {
        AppError::Kubernetes(
            K8sError::ApiError { message: concat("Failed to get current context: ", error) },
        )
    }
}

} // verus!
