//! A verified core for a GDB Remote Serial Protocol debug adapter.
//!
//! The adapter bridges a protocol-driving thread (speaking RSP through an
//! external protocol library) to a virtual-machine execution thread. The
//! pieces verified here are the adaptive breakpoint-address table, the
//! fixed-layout register codec, and the synchronous request/reply session
//! state machine that maps VM events onto execution-control outcomes.

pub mod breakpoints;
pub mod channel;
pub mod errors;
pub mod protocol;
pub mod regs;
pub mod server;
pub mod session;
