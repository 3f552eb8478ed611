//! Plain configuration data: the command-line choices and the channel list
//! read from the configuration file. Argument and file parsing happen at
//! the process edge; by the time these values reach the engine they are
//! already validated plain data.

use vstd::prelude::*;

verus! {

/// The command-line choices of one capture run.
#[derive(Debug, Clone)]
pub struct Args {
    /// Index of the core to attach to.
    pub core: usize,
    /// Name of the chip.
    pub chip: String,
    /// Index of the probe to use.
    pub probe: usize,
    /// Path of the configuration file, when one was given.
    pub config: Option<String>,
    /// Whether to reset the chip on attach.
    pub reset: bool,
    /// Path of a firmware image to scan for the RTT control block when the
    /// direct attach fails.
    pub binary: Option<String>,
}

/// The recognized content of the configuration file.
#[derive(Debug, Clone)]
pub struct Config {
    pub rtt_config: RttConfig,
}

/// The one recognized section: the list of channels to capture.
#[derive(Debug, Clone)]
pub struct RttConfig {
    pub channels: Vec<Channel>,
}

/// One configured channel: drain upstream channel `up` into a file at
/// `path`, labeled `name` for diagnostics.
#[derive(Debug, Clone)]
pub struct Channel {
    /// Index of the upstream channel to drain.
    pub up: usize,
    /// Diagnostic label of the sink.
    pub name: String,
    /// Path of the output file.
    pub path: String,
}

} // verus!
