//! The human-readable texts of the application's errors.
use vstd::prelude::*;
use crate::errors::{
    AppError, ConfigError, K8sError, SecurityError, ShellError, StateError, SystemError,
};
use crate::numbers::{decimal, push_decimal};
use crate::ordering::{join_strings, push_str, seq_join, views};
use crate::text::owned;

verus! {

/// What `{:?}` writes for a text: the text between double quotes, with
/// quotes, backslashes and special characters escaped.
pub uninterp spec fn str_debug(s: Seq<char>) -> Seq<char>;

/// The debug form of a text.
///
/// Trusted: formats `s` with std's `Debug` for `str`; the result is named
/// `str_debug`, a function of the text alone. How characters are escaped is
/// not stated.
#[verifier::external_body]
fn debug_text(s: &str) -> (r: String)
    ensures
        r@ == str_debug(s@),
{
    format!("{:?}", s)
}

/// The text of a Kubernetes client error.
///
/// Trusted: calls `to_string` on a `kube::Error`, whose `Display` renders
/// what the client, the network or the cluster reported. Nothing is stated
/// of the text.
#[verifier::external_body]
fn kube_error_text(e: &kube::Error) -> String {
    e.to_string()
}

/// The text of an I/O error.
///
/// Trusted: calls `to_string` on a `std::io::Error`, whose `Display`
/// renders what the operating system reported. Nothing is stated of the
/// text.
#[verifier::external_body]
fn io_error_text(e: &std::io::Error) -> String {
    e.to_string()
}

/// The debug form of an optional text: `Some("...")` or `None`.
pub open spec fn option_debug(o: Option<String>) -> Seq<char> {
    match o {
        Some(s) => "Some("@ + str_debug(s@) + ")"@,
        None => "None"@,
    }
}

/// The debug form of a list of texts: `["...", "..."]`.
pub open spec fn list_debug(items: Seq<Seq<char>>) -> Seq<char> {
    "["@ + seq_join(items.map_values(|x: Seq<char>| str_debug(x)), ", "@) + "]"@
}

/// Appends the debug form of an optional text.
fn push_option_debug(s: &mut String, o: &Option<String>)
    ensures
        final(s)@ == old(s)@ + option_debug(*o),
{
    match o {
        Some(t) => {
            push_str(s, "Some(");
            let d = debug_text(t.as_str());
            push_str(s, d.as_str());
            push_str(s, ")");
        },
        None => {
            push_str(s, "None");
        },
    }
}

/// Appends the debug form of a list of texts.
fn push_list_debug(s: &mut String, items: &Vec<String>)
    ensures
        final(s)@ == old(s)@ + list_debug(views(items@)),
{
    let mut parts: Vec<String> = Vec::new();
    let mut i: usize = 0;
    while i < items.len()
        invariant
            i <= items.len(),
            views(parts@) == views(items@).take(i as int).map_values(|x: Seq<char>| str_debug(x)),
        decreases items.len() - i,
    {
        let d = debug_text(items[i].as_str());
        let ghost before = parts@;
        parts.push(d);
        proof {
            assert(views(parts@) =~= views(before).push(d@));
            assert(views(items@).take(i + 1).map_values(|x: Seq<char>| str_debug(x)) =~= views(
                items@,
            ).take(i as int).map_values(|x: Seq<char>| str_debug(x)).push(str_debug(items@[i as int]@)));
        }
        i = i + 1;
    }
    proof {
        assert(views(items@).take(i as int) =~= views(items@));
    }
    push_str(s, "[");
    let joined = join_strings(&parts, ", ");
    push_str(s, joined.as_str());
    push_str(s, "]");
}

/// The text of a system error.
pub open spec fn system_error_text(e: SystemError) -> Seq<char> {
    match e {
        SystemError::FdLimitExceeded { current, limit } => "File descriptor limit exceeded: current="@ + decimal(current as nat) + ", limit="@ + decimal(limit as nat),
        SystemError::ProcessSpawnFailed { command, message } => "Process spawn failed: "@ + command@ + " - "@ + message@,
        SystemError::UrlOpenFailed { url, message } => "Failed to open URL "@ + url@ + ": "@ + message@,
        SystemError::ResourceUnavailable { resource, message } => "System resource unavailable: "@ + resource@ + " - "@ + message@,
    }
}

/// The text of a security error.
pub open spec fn security_error_text(e: SecurityError) -> Seq<char> {
    match e {
        SecurityError::SanitizationFailed { input_type, message } => "Input sanitization failed: "@ + input_type@ + " - "@ + message@,
        SecurityError::ForbiddenOperation { operation, reason } => "Forbidden operation: "@ + operation@ + " - "@ + reason@,
        SecurityError::InvalidCommand { command } => "Invalid command detected: "@ + command@,
        SecurityError::PolicyViolation { policy, message } => "Security policy violation: "@ + policy@ + " - "@ + message@,
    }
}

/// The text of a state error.
pub open spec fn state_error_text(e: StateError) -> Seq<char> {
    match e {
        StateError::ManagerNotInitialized { manager_type } => "Manager not initialized: "@ + manager_type@,
        StateError::ManagerAlreadyInitialized { manager_type } => "Manager already initialized: "@ + manager_type@,
        StateError::CorruptionDetected { component, message } => "State corruption detected in "@ + component@ + ": "@ + message@,
        StateError::LockFailed { resource, message } => "Failed to acquire lock for "@ + resource@ + ": "@ + message@,
        StateError::InitializationFailed { step, message } => "Initialization sequence failed at step "@ + step@ + ": "@ + message@,
        StateError::CleanupFailed { component, reason } => "Cleanup failed for component "@ + component@ + ": "@ + reason@,
    }
}

/// The text of a configuration error.
pub open spec fn config_error_text(e: ConfigError) -> Seq<char> {
    match e {
        ConfigError::ValidationFailed { field, message } => "Configuration validation failed: "@ + field@ + " - "@ + message@,
        ConfigError::EnvironmentParsing { variable, message } => "Environment variable parsing failed: "@ + variable@ + " - "@ + message@,
        ConfigError::MissingRequired { field } => "Missing required configuration: "@ + field@,
        ConfigError::InvalidValue { field, value, expected } => "Invalid configuration value for "@ + field@ + ": "@ + value@ + " - expected "@ + expected@,
        ConfigError::NotFound { paths } => "Configuration file not found in any of: "@ + list_debug(views(paths@)),
        ConfigError::FileReadError { path, error } => "Failed to read configuration file "@ + path@ + ": "@ + error@,
        ConfigError::FileWriteError { path, error } => "Failed to write configuration file "@ + path@ + ": "@ + error@,
        ConfigError::ParseError { path, error } => "Failed to parse configuration file "@ + path@ + ": "@ + error@,
        ConfigError::SerializationError { error } => "Failed to serialize configuration: "@ + error@,
    }
}

/// The text of a shell session error.
pub open spec fn shell_error_text(e: ShellError) -> Seq<char> {
    match e {
        ShellError::SessionStartFailed { pod_name, namespace, message } => "Failed to start shell session for pod "@ + pod_name@ + " in namespace "@ + namespace@ + ": "@ + message@,
        ShellError::InputValidationFailed { message } => "Shell input validation failed: "@ + message@,
        ShellError::SessionTerminated { session_id } => "Shell session "@ + session_id@ + " terminated unexpectedly"@,
        ShellError::InputSendFailed { session_id, message } => "Failed to send input to shell session "@ + session_id@ + ": "@ + message@,
        ShellError::ResizeFailed { session_id, message } => "Failed to resize shell session "@ + session_id@ + ": "@ + message@,
        ShellError::ContainerNotFound { container, pod_name } => "Container '"@ + container@ + "' not found in pod "@ + pod_name@,
        ShellError::PodNotRunning { pod_name } => "Pod "@ + pod_name@ + " is not in running state"@,
        ShellError::SessionNotFound { session_id } => "Session not found: "@ + session_id@,
        ShellError::SessionNotActive { session_id } => "Session not active: "@ + session_id@,
        ShellError::TooManySessions { current, max } => "Too many sessions: "@ + decimal(current as nat) + "/"@ + decimal(max as nat),
        ShellError::InputFailed { session_id, message } => "Input failed for session "@ + session_id@ + ": "@ + message@,
        ShellError::ValidationFailed { field, message } => "Validation failed for "@ + field@ + ": "@ + message@,
    }
}

/// The text of a Kubernetes error.
/// For a client that could not be created, only the part before the
/// client error's own text.
pub open spec fn k8s_error_text(e: K8sError) -> Seq<char> {
    match e {
        K8sError::ConnectionFailed { message } => "Failed to connect to Kubernetes cluster: "@ + message@,
        K8sError::ClientCreationFailed { source } => "Failed to create Kubernetes client: "@,
        K8sError::ResourceNotFound { resource_type, name, namespace } => "Resource not found: "@ + resource_type@ + "/"@ + name@ + " in namespace "@ + option_debug(namespace),
        K8sError::InvalidResourceType { resource_type } => "Invalid resource type: "@ + resource_type@,
        K8sError::WatchFailed { resource_type, message } => "Watch operation failed for "@ + resource_type@ + ": "@ + message@,
        K8sError::AuthFailed { message } => "Kubernetes authentication failed: "@ + message@,
        K8sError::ContextSwitchFailed { context, message } => "Failed to switch to context '"@ + context@ + "': "@ + message@,
        K8sError::ValidationFailed { message } => "Resource validation failed: "@ + message@,
        K8sError::ApiError { message } => "API server communication error: "@ + message@,
    }
}

/// The text of an application error.
/// For an I/O error, and a client that could not be created, only the part
/// before the outside error's own text.
pub open spec fn app_error_text(e: AppError) -> Seq<char> {
    match e {
        AppError::Kubernetes(e0) => "Kubernetes error: "@ + k8s_error_text(e0),
        AppError::Shell(e0) => "Shell error: "@ + shell_error_text(e0),
        AppError::Config(e0) => "Configuration error: "@ + config_error_text(e0),
        AppError::State(e0) => "State error: "@ + state_error_text(e0),
        AppError::Security(e0) => "Security error: "@ + security_error_text(e0),
        AppError::System(e0) => "System error: "@ + system_error_text(e0),
        AppError::Io(e0) => "I/O error: "@,
    }
}

impl SystemError {
    /// The error's text.
    pub fn to_string(&self) -> (r: String)
        ensures
            r@ == system_error_text(*self),
    {
        match self {
            SystemError::FdLimitExceeded { current, limit } => {
                let mut s = owned("File descriptor limit exceeded: current=");
                push_decimal(&mut s, *current);
                push_str(&mut s, ", limit=");
                push_decimal(&mut s, *limit);
                s
            },
            SystemError::ProcessSpawnFailed { command, message } => {
                let mut s = owned("Process spawn failed: ");
                push_str(&mut s, command.as_str());
                push_str(&mut s, " - ");
                push_str(&mut s, message.as_str());
                s
            },
            SystemError::UrlOpenFailed { url, message } => {
                let mut s = owned("Failed to open URL ");
                push_str(&mut s, url.as_str());
                push_str(&mut s, ": ");
                push_str(&mut s, message.as_str());
                s
            },
            SystemError::ResourceUnavailable { resource, message } => {
                let mut s = owned("System resource unavailable: ");
                push_str(&mut s, resource.as_str());
                push_str(&mut s, " - ");
                push_str(&mut s, message.as_str());
                s
            },
        }
    }
}

impl SecurityError {
    /// The error's text.
    pub fn to_string(&self) -> (r: String)
        ensures
            r@ == security_error_text(*self),
    {
        match self {
            SecurityError::SanitizationFailed { input_type, message } => {
                let mut s = owned("Input sanitization failed: ");
                push_str(&mut s, input_type.as_str());
                push_str(&mut s, " - ");
                push_str(&mut s, message.as_str());
                s
            },
            SecurityError::ForbiddenOperation { operation, reason } => {
                let mut s = owned("Forbidden operation: ");
                push_str(&mut s, operation.as_str());
                push_str(&mut s, " - ");
                push_str(&mut s, reason.as_str());
                s
            },
            SecurityError::InvalidCommand { command } => {
                let mut s = owned("Invalid command detected: ");
                push_str(&mut s, command.as_str());
                s
            },
            SecurityError::PolicyViolation { policy, message } => {
                let mut s = owned("Security policy violation: ");
                push_str(&mut s, policy.as_str());
                push_str(&mut s, " - ");
                push_str(&mut s, message.as_str());
                s
            },
        }
    }
}

impl StateError {
    /// The error's text.
    pub fn to_string(&self) -> (r: String)
        ensures
            r@ == state_error_text(*self),
    {
        match self {
            StateError::ManagerNotInitialized { manager_type } => {
                let mut s = owned("Manager not initialized: ");
                push_str(&mut s, manager_type.as_str());
                s
            },
            StateError::ManagerAlreadyInitialized { manager_type } => {
                let mut s = owned("Manager already initialized: ");
                push_str(&mut s, manager_type.as_str());
                s
            },
            StateError::CorruptionDetected { component, message } => {
                let mut s = owned("State corruption detected in ");
                push_str(&mut s, component.as_str());
                push_str(&mut s, ": ");
                push_str(&mut s, message.as_str());
                s
            },
            StateError::LockFailed { resource, message } => {
                let mut s = owned("Failed to acquire lock for ");
                push_str(&mut s, resource.as_str());
                push_str(&mut s, ": ");
                push_str(&mut s, message.as_str());
                s
            },
            StateError::InitializationFailed { step, message } => {
                let mut s = owned("Initialization sequence failed at step ");
                push_str(&mut s, step.as_str());
                push_str(&mut s, ": ");
                push_str(&mut s, message.as_str());
                s
            },
            StateError::CleanupFailed { component, reason } => {
                let mut s = owned("Cleanup failed for component ");
                push_str(&mut s, component.as_str());
                push_str(&mut s, ": ");
                push_str(&mut s, reason.as_str());
                s
            },
        }
    }
}

impl ConfigError {
    /// The error's text.
    pub fn to_string(&self) -> (r: String)
        ensures
            r@ == config_error_text(*self),
    {
        match self {
            ConfigError::ValidationFailed { field, message } => {
                let mut s = owned("Configuration validation failed: ");
                push_str(&mut s, field.as_str());
                push_str(&mut s, " - ");
                push_str(&mut s, message.as_str());
                s
            },
            ConfigError::EnvironmentParsing { variable, message } => {
                let mut s = owned("Environment variable parsing failed: ");
                push_str(&mut s, variable.as_str());
                push_str(&mut s, " - ");
                push_str(&mut s, message.as_str());
                s
            },
            ConfigError::MissingRequired { field } => {
                let mut s = owned("Missing required configuration: ");
                push_str(&mut s, field.as_str());
                s
            },
            ConfigError::InvalidValue { field, value, expected } => {
                let mut s = owned("Invalid configuration value for ");
                push_str(&mut s, field.as_str());
                push_str(&mut s, ": ");
                push_str(&mut s, value.as_str());
                push_str(&mut s, " - expected ");
                push_str(&mut s, expected.as_str());
                s
            },
            ConfigError::NotFound { paths } => {
                let mut s = owned("Configuration file not found in any of: ");
                push_list_debug(&mut s, paths);
                s
            },
            ConfigError::FileReadError { path, error } => {
                let mut s = owned("Failed to read configuration file ");
                push_str(&mut s, path.as_str());
                push_str(&mut s, ": ");
                push_str(&mut s, error.as_str());
                s
            },
            ConfigError::FileWriteError { path, error } => {
                let mut s = owned("Failed to write configuration file ");
                push_str(&mut s, path.as_str());
                push_str(&mut s, ": ");
                push_str(&mut s, error.as_str());
                s
            },
            ConfigError::ParseError { path, error } => {
                let mut s = owned("Failed to parse configuration file ");
                push_str(&mut s, path.as_str());
                push_str(&mut s, ": ");
                push_str(&mut s, error.as_str());
                s
            },
            ConfigError::SerializationError { error } => {
                let mut s = owned("Failed to serialize configuration: ");
                push_str(&mut s, error.as_str());
                s
            },
        }
    }
}

impl ShellError {
    /// The error's text.
    pub fn to_string(&self) -> (r: String)
        ensures
            r@ == shell_error_text(*self),
    {
        match self {
            ShellError::SessionStartFailed { pod_name, namespace, message } => {
                let mut s = owned("Failed to start shell session for pod ");
                push_str(&mut s, pod_name.as_str());
                push_str(&mut s, " in namespace ");
                push_str(&mut s, namespace.as_str());
                push_str(&mut s, ": ");
                push_str(&mut s, message.as_str());
                s
            },
            ShellError::InputValidationFailed { message } => {
                let mut s = owned("Shell input validation failed: ");
                push_str(&mut s, message.as_str());
                s
            },
            ShellError::SessionTerminated { session_id } => {
                let mut s = owned("Shell session ");
                push_str(&mut s, session_id.as_str());
                push_str(&mut s, " terminated unexpectedly");
                s
            },
            ShellError::InputSendFailed { session_id, message } => {
                let mut s = owned("Failed to send input to shell session ");
                push_str(&mut s, session_id.as_str());
                push_str(&mut s, ": ");
                push_str(&mut s, message.as_str());
                s
            },
            ShellError::ResizeFailed { session_id, message } => {
                let mut s = owned("Failed to resize shell session ");
                push_str(&mut s, session_id.as_str());
                push_str(&mut s, ": ");
                push_str(&mut s, message.as_str());
                s
            },
            ShellError::ContainerNotFound { container, pod_name } => {
                let mut s = owned("Container '");
                push_str(&mut s, container.as_str());
                push_str(&mut s, "' not found in pod ");
                push_str(&mut s, pod_name.as_str());
                s
            },
            ShellError::PodNotRunning { pod_name } => {
                let mut s = owned("Pod ");
                push_str(&mut s, pod_name.as_str());
                push_str(&mut s, " is not in running state");
                s
            },
            ShellError::SessionNotFound { session_id } => {
                let mut s = owned("Session not found: ");
                push_str(&mut s, session_id.as_str());
                s
            },
            ShellError::SessionNotActive { session_id } => {
                let mut s = owned("Session not active: ");
                push_str(&mut s, session_id.as_str());
                s
            },
            ShellError::TooManySessions { current, max } => {
                let mut s = owned("Too many sessions: ");
                push_decimal(&mut s, *current as u64);
                push_str(&mut s, "/");
                push_decimal(&mut s, *max as u64);
                s
            },
            ShellError::InputFailed { session_id, message } => {
                let mut s = owned("Input failed for session ");
                push_str(&mut s, session_id.as_str());
                push_str(&mut s, ": ");
                push_str(&mut s, message.as_str());
                s
            },
            ShellError::ValidationFailed { field, message } => {
                let mut s = owned("Validation failed for ");
                push_str(&mut s, field.as_str());
                push_str(&mut s, ": ");
                push_str(&mut s, message.as_str());
                s
            },
        }
    }
}

impl K8sError {
    /// The error's text.
    pub fn to_string(&self) -> (r: String)
        ensures
            match *self {
                K8sError::ClientCreationFailed { .. } => k8s_error_text(*self).is_prefix_of(r@),
                _ => r@ == k8s_error_text(*self),
            },
    {
        match self {
            K8sError::ConnectionFailed { message } => {
                let mut s = owned("Failed to connect to Kubernetes cluster: ");
                push_str(&mut s, message.as_str());
                s
            },
            K8sError::ClientCreationFailed { source } => {
                let mut s = owned("Failed to create Kubernetes client: ");
                let t = kube_error_text(source);
                push_str(&mut s, t.as_str());
                s
            },
            K8sError::ResourceNotFound { resource_type, name, namespace } => {
                let mut s = owned("Resource not found: ");
                push_str(&mut s, resource_type.as_str());
                push_str(&mut s, "/");
                push_str(&mut s, name.as_str());
                push_str(&mut s, " in namespace ");
                push_option_debug(&mut s, namespace);
                s
            },
            K8sError::InvalidResourceType { resource_type } => {
                let mut s = owned("Invalid resource type: ");
                push_str(&mut s, resource_type.as_str());
                s
            },
            K8sError::WatchFailed { resource_type, message } => {
                let mut s = owned("Watch operation failed for ");
                push_str(&mut s, resource_type.as_str());
                push_str(&mut s, ": ");
                push_str(&mut s, message.as_str());
                s
            },
            K8sError::AuthFailed { message } => {
                let mut s = owned("Kubernetes authentication failed: ");
                push_str(&mut s, message.as_str());
                s
            },
            K8sError::ContextSwitchFailed { context, message } => {
                let mut s = owned("Failed to switch to context '");
                push_str(&mut s, context.as_str());
                push_str(&mut s, "': ");
                push_str(&mut s, message.as_str());
                s
            },
            K8sError::ValidationFailed { message } => {
                let mut s = owned("Resource validation failed: ");
                push_str(&mut s, message.as_str());
                s
            },
            K8sError::ApiError { message } => {
                let mut s = owned("API server communication error: ");
                push_str(&mut s, message.as_str());
                s
            },
        }
    }
}

impl AppError {
    /// The error's text.
    pub fn to_string(&self) -> (r: String)
        ensures
            match *self {
                AppError::Io(_) => app_error_text(*self).is_prefix_of(r@),
                AppError::Kubernetes(K8sError::ClientCreationFailed { .. }) => app_error_text(*self).is_prefix_of(r@),
                _ => r@ == app_error_text(*self),
            },
    {
        match self {
            AppError::Kubernetes(e0) => {
                let mut s = owned("Kubernetes error: ");
                let t = e0.to_string();
                push_str(&mut s, t.as_str());
                s
            },
            AppError::Shell(e0) => {
                let mut s = owned("Shell error: ");
                let t = e0.to_string();
                push_str(&mut s, t.as_str());
                s
            },
            AppError::Config(e0) => {
                let mut s = owned("Configuration error: ");
                let t = e0.to_string();
                push_str(&mut s, t.as_str());
                s
            },
            AppError::State(e0) => {
                let mut s = owned("State error: ");
                let t = e0.to_string();
                push_str(&mut s, t.as_str());
                s
            },
            AppError::Security(e0) => {
                let mut s = owned("Security error: ");
                let t = e0.to_string();
                push_str(&mut s, t.as_str());
                s
            },
            AppError::System(e0) => {
                let mut s = owned("System error: ");
                let t = e0.to_string();
                push_str(&mut s, t.as_str());
                s
            },
            AppError::Io(e0) => {
                let mut s = owned("I/O error: ");
                let t = io_error_text(e0);
                push_str(&mut s, t.as_str());
                s
            },
        }
    }
}

/// Whether the text of an application error is given in full by
/// `app_error_text`: all but I/O errors and clients that could not be
/// created, whose texts end with the outside error's own.
pub open spec fn app_text_exact(e: AppError) -> bool {
    match e {
        AppError::Io(_) => false,
        AppError::Kubernetes(K8sError::ClientCreationFailed { .. }) => false,
        _ => true,
    }
}

/// The result a command hands to the user interface: the value, or the
/// error's text.
pub fn to_tauri_result<T>(result: Result<T, AppError>) -> (r: Result<T, String>)
    ensures
        match result {
            Ok(v) => r matches Ok(w) && w == v,
            Err(e) => r matches Err(m) && app_error_text(e).is_prefix_of(m@) && (app_text_exact(e)
                ==> m@ == app_error_text(e)),
        },
{
    match result {
        Ok(v) => Ok(v),
        Err(e) => {
            let m = e.to_string();
            proof {
                assert(m@.subrange(0, m@.len() as int) =~= m@);
            }
            Err(m)
        },
    }
}

} // verus!
