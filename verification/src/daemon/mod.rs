//! The capture daemon: what it sends, when, and in what form.

pub mod annexb;
pub mod capture;
pub mod config;
pub mod control;
pub mod encode_loop;
pub mod encoder;
pub mod hw_capture;
pub mod pixels;
pub mod resize;
pub mod session;
pub mod signalling;
