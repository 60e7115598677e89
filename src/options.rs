//! What a caller asks of each lifecycle operation.
use vstd::prelude::*;

verus! {

/// Options of `start`.
#[derive(Debug, Clone, Copy)]
pub struct Start {
    /// Run the server attached to the caller instead of through the service manager.
    pub foreground: bool,
}

/// Options of `stop`.
#[derive(Debug, Clone, Copy)]
pub struct Stop {}

/// Options of `restart`.
#[derive(Debug, Clone, Copy)]
pub struct Restart {}

/// Options of `status`.
#[derive(Debug, Clone, Copy)]
pub struct Status {
    /// Show the service manager's own status text.
    pub service: bool,
    /// Show the extended diagnostic report.
    pub extended: bool,
}

/// What `status` asks its caller to do; each ends the caller with an exit code.
#[derive(Debug, Clone)]
pub enum StatusAction {
    /// Query the instance's status and print the extended report.
    Extended,
    /// Run the service manager's status command and exit with its code.
    Service(crate::command::CommandLine),
    /// Query the instance's status and print the short summary.
    Summary,
}

} // verus!
