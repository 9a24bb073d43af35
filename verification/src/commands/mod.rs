//! The commands that the user interface sends: what each checks before it
//! runs, and what it makes of what the cluster and the registry give.
pub mod k8s_commands;
pub mod resource_commands;
pub mod shell_commands;
pub mod system_commands;
