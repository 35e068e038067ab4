//! Probes of each protocol.
pub mod http_ping;
pub mod icmp_ping;
pub mod probe;
