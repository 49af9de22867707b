//! Verified core of an ICMP round-trip latency monitor.
//!
//! The library holds the logic of the monitor: per-host running latency
//! statistics, parsing of dotted-quad host addresses, and the scheduling
//! decisions of the completion-driven probe loop. The transport (sending
//! echo requests and awaiting replies), the shutdown signal and the console
//! output live outside the library and feed it plain values.

pub mod addr;
pub mod report;
pub mod sched;
pub mod stats;
