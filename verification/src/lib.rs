//! Capture engine for draining RTT up-channels of an embedded target into
//! per-channel log files: scanning a firmware image's symbol table for the
//! RTT control block, the attachment strategy with its symbol-scan fallback,
//! binding configured channels to named file sinks, and the per-cycle
//! decisions of the polling loop, including per-sink failure isolation.

pub mod attach;
pub mod capture;
pub mod config;
pub mod registry;
pub mod scanner;
