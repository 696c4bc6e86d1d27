//! Core of an ICMP path tracer: probe records, the ring buffer of in-flight
//! probes, the round scheduler's decisions and the hops table column layout.

pub mod columns;
pub mod probe;
pub mod state;
pub mod tracer;
pub mod types;
