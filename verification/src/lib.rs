//! Anti-tampering protection core.
//!
//! A host application starts a background watcher once at startup. On a fixed
//! cadence the watcher probes the environment for an attached debugger and for
//! known analysis tooling among the running processes; on a positive detection
//! it destroys the application's installation and data directories and
//! terminates the process.
//!
//! This crate holds the decision logic of that monitor: the probe evaluation
//! over a snapshot of process names, the monitor's start/trigger state machine,
//! and the best-effort recursive deletion policy of the destruction reactor,
//! each with a proved contract. The host supplies the raw OS readings (debugger
//! flags, process lists, filesystem walks) and performs the actual deletions
//! and the process exit.

pub mod denylist;
pub mod protection;
pub mod reactor;
