//! Remote assistance: the rules of a session broker and of a screen-capture daemon.
//!
//! The broker admits peers to rooms, relays their signalling, and bridges browsers to RDP
//! hosts. The daemon captures a screen, encodes it as H.264, and carries out control commands.
//! Everything here is computed from plain values; sockets, devices and clocks are outside.

pub mod broker;
pub mod bytes;
pub mod daemon;
pub mod document;
pub mod json;
pub mod jwt;
pub mod text;
pub mod time;
