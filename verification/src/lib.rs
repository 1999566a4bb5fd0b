//! Tunnel configuration and endpoint resolution for a VPN client, together
//! with the rules of the file-based credential hand-off to a tunnel process.
//!
//! Everything here is plain data and total functions over it. Each function
//! carries a contract that is proved by Verus.

pub mod endpoint;
pub mod handoff;
pub mod net;
pub mod relay_list;
