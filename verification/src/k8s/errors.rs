//! Error types for Kubernetes watch operations.
use vstd::prelude::*;
use crate::text::owned;

verus! {

/// Errors of the watch managers.
#[derive(Debug)]
pub enum K8sWatchError {
    /// Resource type is not supported by the watch system
    UnsupportedResourceType { resource_type: String },
    /// The Kubernetes client could not be created.
    ClientCreationFailed { source: kube::Error },
    /// Failed to start watch for resource
    WatchStartFailed { resource_type: String, message: String },
    /// Failed to stop watch for resource
    WatchStopFailed { resource_type: String, message: String },
    /// Watch is already active for the given key
    WatchAlreadyActive { watch_key: String },
    /// Any other failure, by its text
    Other { message: String },
}

impl K8sWatchError {
    /// An error for an unsupported resource type.
    pub fn unsupported_resource(resource_type: &str) -> (r: Self)
        ensures
            r matches K8sWatchError::UnsupportedResourceType { resource_type: t } && t@
                == resource_type@,
    {
        K8sWatchError::UnsupportedResourceType { resource_type: owned(resource_type) }
    }

    /// An error for a watch that failed to start.
    pub fn watch_start_failed(resource_type: &str, message: &str) -> (r: Self)
        ensures
            r matches K8sWatchError::WatchStartFailed { resource_type: t, message: m } && t@
                == resource_type@ && m@ == message@,
    {
        K8sWatchError::WatchStartFailed {
            resource_type: owned(resource_type),
            message: owned(message),
        }
    }

    /// An error for a watch that failed to stop.
    pub fn watch_stop_failed(resource_type: &str, message: &str) -> (r: Self)
        ensures
            r matches K8sWatchError::WatchStopFailed { resource_type: t, message: m } && t@
                == resource_type@ && m@ == message@,
    {
        K8sWatchError::WatchStopFailed {
            resource_type: owned(resource_type),
            message: owned(message),
        }
    }
}

} // verus!
