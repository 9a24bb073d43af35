//! The verified core of the Kide Kubernetes IDE: resource catalog and
//! registry, watch and cache bookkeeping, log streams, shell sessions, input
//! checks, configuration, and the decisions of the commands.
use vstd::prelude::*;

pub mod text;
pub mod numbers;
pub mod ordering;
pub mod table;
pub mod pair_table;
pub mod security;
pub mod k8s;
pub mod errors;
pub mod error_text;
pub mod shell_session;
pub mod state;
pub mod commands;
pub mod environment;
pub mod cleanup;
