//! The application's configuration: its presets, how it is read from files
//! and the environment and checked, and how the application state is built
//! from it.
pub mod config;
pub mod config_file;
pub mod config_loader;
pub mod builder;

pub use config::{Duration, KideConfig};
pub use config_loader::{ConfigLoader, SerializableConfig};
pub use builder::{AppStateBuilder, Environment};
