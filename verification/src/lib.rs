//! Status-line snapshot library for a statusbar feeder.
//!
//! The heart of the crate is the removable-storage monitor: it keeps a
//! registry that maps each attached removable drive partition to its current
//! mount point, driven by two kernel watch streams (device nodes appearing and
//! disappearing under the device directory, mount-point directories appearing
//! and disappearing under the per-user media root). The surrounding process
//! owns the watches and the blocking reads; this crate owns and verifies every
//! decision: which device names are candidates, how a mount-directory event is
//! correlated with the live mount table, how the registry changes, and the
//! exact JSON line that is emitted after each handled event.

pub mod classifier;
pub mod correlator;
pub mod emit;
pub mod monitor;
pub mod mounts;
pub mod peripherals;
pub mod registry;
pub mod text;
