//! Networking core of a cluster node: peer discovery with reconnection,
//! inbound accepting with port fallback, a per-connection heartbeat
//! protocol, and the binary envelope codec that carries it.

pub mod config;
pub mod network_handler;
pub mod state;
pub mod util;
