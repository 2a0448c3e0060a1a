//! Verified core of an ICMP reachability tool: the echo-request codec with its
//! one's-complement checksum, the classification of kernel error-queue
//! messages, the correlation table that tracks every outstanding probe, and
//! the ping and traceroute engines as explicit state machines. Socket I/O and
//! terminal rendering live outside this crate and drive these state machines.

pub mod classify;
pub mod codec;
pub mod engine;
pub mod table;
pub mod trace;

pub use classify::IcmpError;
