//! Native backend of a clipboard translation utility: a durable settings
//! store reached through two commands, and a global hotkey listener.

pub mod config;
pub mod bridge;
pub mod codec;
pub mod disk;
pub mod hotkey;
pub mod json;
pub mod location;
pub mod session;
pub mod store;
pub mod wire;
