pub mod catalog;
pub mod resources;
pub mod resource_map;
pub mod resource_registry;
pub mod watch_components;
pub mod watch;
pub mod shared_cache;
pub mod list_item;
pub mod logs;
pub mod client;
pub mod resource_api;
pub mod system_monitor;
pub mod errors;
