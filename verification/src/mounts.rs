//! The monitor's window onto the host: a snapshot of the live mount table,
//! and the fixed delay used between correlation attempts.
//!
//! Both calls depend on the running kernel (what is mounted right now, how
//! long the thread actually sleeps), so their contracts promise nothing about
//! their results; everything the monitor concludes from a snapshot is proved
//! in the functions that take the snapshot as an argument.

use vstd::prelude::*;

verus! {

/// One row of the host's mount table: the source device path (e.g.
/// `/dev/sdb1`) and the directory it is mounted on.
pub struct MountEntry {
    pub source: String,
    pub path: String,
}

/// Snapshots the host's current mount table, or `None` when it cannot be
/// read; the rows reflect the live kernel state at call time.
///
/// Relies on `mountinfo::MountInfo::new`, which parses the kernel's mount
/// list (`/proc/self/mountinfo`, falling back to `/etc/mtab`) into one row
/// per mount point, with `what` the source device and `path` the mount
/// directory.
#[verifier::external_body]
pub(crate) fn read_mount_table() -> Option<Vec<MountEntry>> {
    match mountinfo::MountInfo::new() {
        Ok(info) => Some(
            info.mounting_points
                .into_iter()
                .map(
                    |m| MountEntry {
                        source: m.what,
                        path: m.path.to_string_lossy().into_owned(),
                    },
                )
                .collect(),
        ),
        Err(_) => None,
    }
}

/// Blocks the calling thread for roughly `ms` milliseconds.
///
/// Relies on `nix::poll::poll` with an empty descriptor set: with nothing to
/// wait on, the call returns once the timeout elapses (earlier if a signal
/// arrives).
#[verifier::external_body]
pub(crate) fn delay_millis(ms: u16) {
    let mut fds: [nix::poll::PollFd; 0] = [];
    let _ = nix::poll::poll(&mut fds, ms);
}

} // verus!
