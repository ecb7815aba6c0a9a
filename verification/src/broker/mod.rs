//! The session broker: admission, rooms, and the bridge to RDP hosts.

pub mod active;
pub mod auth;
pub mod config;
pub mod fast_path;
pub mod frame;
pub mod ice;
pub mod input;
pub mod native;
pub mod relay;
pub mod rooms;
pub mod scancode;
