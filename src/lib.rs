//! Control of a locally installed database server through the host's
//! service manager: command lines, socket endpoints and the choice of
//! service-manager variant, computed as plain values.

pub mod text;
pub mod command;
pub mod host;
pub mod options;
pub mod systemd;
pub mod launchd;
pub mod instance;
pub mod laws;
