//! The command line: the subcommands and their arguments.
use vstd::prelude::*;

verus! {

/// The parsed command line. With no subcommand the banner is shown and
/// `inspect` runs.
#[derive(Debug, Clone)]
pub struct Cli {
    pub command: Option<Command>,
}

/// The subcommands.
#[derive(Debug, Clone)]
pub enum Command {
    /// Run sandbox connectivity and config checks.
    Doctor,
    /// Start a local server that prints incoming Daraja callbacks live.
    Inspect,
    /// Expose a local port to the internet so Daraja can reach your callback URL.
    Tunnel,
    /// Resend a previously captured callback to a local endpoint.
    Replay {
        /// Stored callback to resend: its index or file name; omitted to list them.
        selector: Option<String>,
        /// Delay the resend by this many milliseconds.
        delay: Option<u64>,
        /// Send the callback twice, back to back.
        duplicate: bool,
        /// Corrupt the payload before sending, to test error handling.
        corrupt: bool,
    },
}

/// Arguments of the `doctor` checks.
#[derive(Debug, Clone)]
pub struct DoctorArgs {
    /// Daraja consumer key.
    pub consumer_key: Option<String>,
    /// Daraja consumer secret.
    pub consumer_secret: Option<String>,
    /// Callback URL to check for reachability.
    pub callback_url: Option<String>,
    /// Use the production Daraja API instead of sandbox.
    pub production: bool,
}

} // verus!
