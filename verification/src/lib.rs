//! Post-processing for hostname resolution: a model of IP addresses, the
//! policy that drops private IPv4 addresses while keeping every IPv6
//! address, the filter that pairs surviving addresses with the HTTPS port,
//! and the mapping from a raw lookup outcome to the caller-visible result.

pub mod address;
pub mod filter;
pub mod outcome;
