//! Supervision of a battery-backup unit on a serial link: telemetry decoding,
//! the shutdown decision, device discovery and the bookkeeping of the
//! broadcast hub.

pub mod config;
pub mod daemon;
pub mod ipc;
pub mod locator;
pub mod monitor;
pub mod policy;
pub mod status;
pub mod text;
pub mod ups_data;
pub mod wire;
