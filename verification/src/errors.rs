//! Error types of the application, by area. Their human-readable texts
//! are given by `error_text`.
use vstd::prelude::*;
use crate::text::owned;

verus! {

/// The I/O error of std, carried through unchanged.
#[verifier::external_type_specification]
#[verifier::external_body]
pub struct ExIoError(std::io::Error);

/// The error of the Kubernetes client library, carried through unchanged.
#[verifier::external_type_specification]
#[verifier::external_body]
pub struct ExKubeError(kube::Error);

/// Main application error type encompassing all possible failures.
#[derive(Debug)]
pub enum AppError {
    Kubernetes(K8sError),
    Shell(ShellError),
    Config(ConfigError),
    State(StateError),
    Security(SecurityError),
    System(SystemError),
    Io(std::io::Error),
}

/// Kubernetes-specific error types.
#[derive(Debug)]
pub enum K8sError {
    ConnectionFailed { message: String },
    /// The Kubernetes client could not be created.
    ClientCreationFailed { source: kube::Error },
    ResourceNotFound { resource_type: String, name: String, namespace: Option<String> },
    InvalidResourceType { resource_type: String },
    WatchFailed { resource_type: String, message: String },
    AuthFailed { message: String },
    ContextSwitchFailed { context: String, message: String },
    ValidationFailed { message: String },
    ApiError { message: String },
}

/// Shell session error types.
#[derive(Debug)]
pub enum ShellError {
    SessionStartFailed { pod_name: String, namespace: String, message: String },
    InputValidationFailed { message: String },
    SessionTerminated { session_id: String },
    InputSendFailed { session_id: String, message: String },
    ResizeFailed { session_id: String, message: String },
    ContainerNotFound { container: String, pod_name: String },
    PodNotRunning { pod_name: String },
    SessionNotFound { session_id: String },
    SessionNotActive { session_id: String },
    TooManySessions { current: usize, max: usize },
    InputFailed { session_id: String, message: String },
    ValidationFailed { field: String, message: String },
}

/// Configuration error types.
#[derive(Debug)]
pub enum ConfigError {
    ValidationFailed { field: String, message: String },
    EnvironmentParsing { variable: String, message: String },
    MissingRequired { field: String },
    InvalidValue { field: String, value: String, expected: String },
    NotFound { paths: Vec<String> },
    FileReadError { path: String, error: String },
    FileWriteError { path: String, error: String },
    ParseError { path: String, error: String },
    SerializationError { error: String },
}

/// State management error types.
#[derive(Debug)]
pub enum StateError {
    ManagerNotInitialized { manager_type: String },
    ManagerAlreadyInitialized { manager_type: String },
    CorruptionDetected { component: String, message: String },
    LockFailed { resource: String, message: String },
    InitializationFailed { step: String, message: String },
    CleanupFailed { component: String, reason: String },
}

/// Security validation error types.
#[derive(Debug)]
pub enum SecurityError {
    SanitizationFailed { input_type: String, message: String },
    ForbiddenOperation { operation: String, reason: String },
    InvalidCommand { command: String },
    PolicyViolation { policy: String, message: String },
}

/// System-level error types.
#[derive(Debug)]
pub enum SystemError {
    FdLimitExceeded { current: u64, limit: u64 },
    ProcessSpawnFailed { command: String, message: String },
    UrlOpenFailed { url: String, message: String },
    ResourceUnavailable { resource: String, message: String },
}

impl From<K8sError> for AppError {
    fn from(e: K8sError) -> (r: Self) {
        AppError::Kubernetes(e)
    }
}

impl vstd::std_specs::convert::FromSpecImpl<K8sError> for AppError {
    open spec fn obeys_from_spec() -> bool {
        true
    }

    open spec fn from_spec(e: K8sError) -> Self {
        AppError::Kubernetes(e)
    }
}

impl From<ShellError> for AppError {
    fn from(e: ShellError) -> (r: Self) {
        AppError::Shell(e)
    }
}

impl vstd::std_specs::convert::FromSpecImpl<ShellError> for AppError {
    open spec fn obeys_from_spec() -> bool {
        true
    }

    open spec fn from_spec(e: ShellError) -> Self {
        AppError::Shell(e)
    }
}

impl From<ConfigError> for AppError {
    fn from(e: ConfigError) -> (r: Self) {
        AppError::Config(e)
    }
}

impl vstd::std_specs::convert::FromSpecImpl<ConfigError> for AppError {
    open spec fn obeys_from_spec() -> bool {
        true
    }

    open spec fn from_spec(e: ConfigError) -> Self {
        AppError::Config(e)
    }
}

impl From<StateError> for AppError {
    fn from(e: StateError) -> (r: Self) {
        AppError::State(e)
    }
}

impl vstd::std_specs::convert::FromSpecImpl<StateError> for AppError {
    open spec fn obeys_from_spec() -> bool {
        true
    }

    open spec fn from_spec(e: StateError) -> Self {
        AppError::State(e)
    }
}

impl From<SecurityError> for AppError {
    fn from(e: SecurityError) -> (r: Self) {
        AppError::Security(e)
    }
}

impl vstd::std_specs::convert::FromSpecImpl<SecurityError> for AppError {
    open spec fn obeys_from_spec() -> bool {
        true
    }

    open spec fn from_spec(e: SecurityError) -> Self {
        AppError::Security(e)
    }
}

impl From<SystemError> for AppError {
    fn from(e: SystemError) -> (r: Self) {
        AppError::System(e)
    }
}

impl vstd::std_specs::convert::FromSpecImpl<SystemError> for AppError {
    open spec fn obeys_from_spec() -> bool {
        true
    }

    open spec fn from_spec(e: SystemError) -> Self {
        AppError::System(e)
    }
}

impl From<String> for K8sError {
    /// A message from the API server.
    fn from(message: String) -> (r: Self) {
        K8sError::ApiError { message }
    }
}

impl vstd::std_specs::convert::FromSpecImpl<String> for K8sError {
    open spec fn obeys_from_spec() -> bool {
        true
    }

    open spec fn from_spec(message: String) -> Self {
        K8sError::ApiError { message }
    }
}

impl K8sError {
    pub fn connection_failed(message: &str) -> (r: Self)
        ensures
            r matches K8sError::ConnectionFailed { message: m } && m@ == message@,
    {
        K8sError::ConnectionFailed { message: owned(message) }
    }

    pub fn resource_not_found(resource_type: &str, name: &str, namespace: Option<String>) -> (r: Self)
        ensures
            r matches K8sError::ResourceNotFound { resource_type: t, name: n, namespace: ns }
                && t@ == resource_type@ && n@ == name@ && ns == namespace,
    {
        K8sError::ResourceNotFound {
            resource_type: owned(resource_type),
            name: owned(name),
            namespace,
        }
    }

    pub fn watch_failed(resource_type: &str, message: &str) -> (r: Self)
        ensures
            r matches K8sError::WatchFailed { resource_type: t, message: m } && t@ == resource_type@
                && m@ == message@,
    {
        K8sError::WatchFailed { resource_type: owned(resource_type), message: owned(message) }
    }
}

impl ShellError {
    pub fn session_start_failed(pod_name: &str, namespace: &str, message: &str) -> (r: Self)
        ensures
            r matches ShellError::SessionStartFailed { pod_name: p, namespace: n, message: m }
                && p@ == pod_name@ && n@ == namespace@ && m@ == message@,
    {
        ShellError::SessionStartFailed {
            pod_name: owned(pod_name),
            namespace: owned(namespace),
            message: owned(message),
        }
    }

    pub fn session_not_found(session_id: &str) -> (r: Self)
        ensures
            r matches ShellError::SessionNotFound { session_id: s } && s@ == session_id@,
    {
        ShellError::SessionNotFound { session_id: owned(session_id) }
    }
}

impl ConfigError {
    pub fn validation_failed(field: &str, message: &str) -> (r: Self)
        ensures
            r matches ConfigError::ValidationFailed { field: f, message: m } && f@ == field@ && m@
                == message@,
    {
        ConfigError::ValidationFailed { field: owned(field), message: owned(message) }
    }

    pub fn missing_required(field: &str) -> (r: Self)
        ensures
            r matches ConfigError::MissingRequired { field: f } && f@ == field@,
    {
        ConfigError::MissingRequired { field: owned(field) }
    }
}

impl StateError {
    pub fn manager_not_initialized(manager_type: &str) -> (r: Self)
        ensures
            r matches StateError::ManagerNotInitialized { manager_type: t } && t@ == manager_type@,
    {
        StateError::ManagerNotInitialized { manager_type: owned(manager_type) }
    }

    pub fn initialization_failed(step: &str, message: &str) -> (r: Self)
        ensures
            r matches StateError::InitializationFailed { step: s, message: m } && s@ == step@ && m@
                == message@,
    {
        StateError::InitializationFailed { step: owned(step), message: owned(message) }
    }
}

} // verus!
