//! Volume tracking: identity of storage volumes, the authoritative volume
//! state, change detection decisions and the platform-independent parts of
//! enumeration and unmounting.

pub mod actor;
pub mod common;
pub mod menu;
pub mod mobile;
pub mod os;
pub mod text;
pub mod theme;
pub mod types;
pub mod watcher;
