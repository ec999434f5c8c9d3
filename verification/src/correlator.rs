//! The mount correlator: resolves a mount-directory create event to the
//! device it belongs to, bridging the race between "directory appeared" and
//! "mount completed" with a bounded retry.
//!
//! The pure resolution step, [`correlate_create`], works on an explicit mount
//! table snapshot and is exact: it finds the first row whose mount path has
//! the event's leaf name, takes the leaf of that row's source device as the
//! registry key, and records the mount. [`correlate_with_retry`] drives it
//! against the live mount table, waiting a fixed delay before the first
//! lookup and between attempts, and gives up after a fixed number of
//! attempts, leaving the registry untouched.

use vstd::prelude::*;
use crate::mounts::MountEntry;
use crate::mounts::delay_millis;
use crate::mounts::read_mount_table;
use crate::registry::DriveRegistry;
use crate::registry::key_index;
use crate::text::leaf_name;
use crate::text::leaf_of;
use crate::text::str_eq;

verus! {

/// How many times one create event is checked against the mount table.
pub const RETRY_COUNT: u64 = 10;

/// The fixed delay, in milliseconds, before the first lookup and between
/// attempts.
pub const RETRY_DELAY_MS: u16 = 100;

/// The index of the first mount-table row whose mount path has leaf name
/// `leaf`, if any.
pub open spec fn first_match(entries: Seq<MountEntry>, leaf: Seq<char>) -> Option<int>
    decreases entries.len(),
{
    if entries.len() == 0 {
        None
    } else if leaf_of(entries[0].path@) == leaf {
        Some(0 as int)
    } else {
        match first_match(entries.drop_first(), leaf) {
            Some(i) => Some(i + 1),
            None => None,
        }
    }
}

/// `first_match` returns the least matching index, and `None` exactly when
/// no row matches.
pub proof fn lemma_first_match(entries: Seq<MountEntry>, leaf: Seq<char>)
    ensures
        match first_match(entries, leaf) {
            Some(i) => 0 <= i < entries.len() && leaf_of(entries[i].path@) == leaf && forall|j: int|
                0 <= j < i ==> leaf_of(entries[j].path@) != leaf,
            None => forall|j: int| 0 <= j < entries.len() ==> leaf_of(entries[j].path@) != leaf,
        },
    decreases entries.len(),
{
    if entries.len() > 0 && leaf_of(entries[0].path@) != leaf {
        let rest = entries.drop_first();
        lemma_first_match(rest, leaf);
        match first_match(rest, leaf) {
            Some(i) => {
                assert(rest[i] == entries[i + 1]);
                assert forall|j: int| 0 <= j < i + 1 implies leaf_of(entries[j].path@) != leaf by {
                    if j > 0 {
                        assert(rest[j - 1] == entries[j]);
                        assert(leaf_of(rest[j - 1].path@) != leaf);
                    }
                }
            },
            None => {
                assert forall|j: int| 0 <= j < entries.len() implies leaf_of(entries[j].path@)
                    != leaf by {
                    if j > 0 {
                        assert(rest[j - 1] == entries[j]);
                        assert(leaf_of(rest[j - 1].path@) != leaf);
                    }
                }
            },
        }
    }
}

/// The exact index `i` pins `first_match` down.
proof fn lemma_first_match_at(entries: Seq<MountEntry>, leaf: Seq<char>, i: int)
    requires
        0 <= i < entries.len(),
        leaf_of(entries[i].path@) == leaf,
        forall|j: int| 0 <= j < i ==> leaf_of(entries[j].path@) != leaf,
    ensures
        first_match(entries, leaf) == Some(i),
{
    lemma_first_match(entries, leaf);
    match first_match(entries, leaf) {
        Some(k) => {
            if k < i {
                assert(leaf_of(entries[k].path@) != leaf);
            }
            if k > i {
                assert(leaf_of(entries[i].path@) != leaf);
            }
        },
        None => {
            assert(leaf_of(entries[i].path@) != leaf);
        },
    }
}

/// How one mount-directory create event was resolved.
#[derive(Debug, PartialEq, Eq)]
pub enum CorrelateOutcome {
    /// The first matching mount-table row named a registered device: its
    /// mount path is now recorded.
    Mounted { device: String, path: String },
    /// The first matching row named a device that is not in the registry
    /// (its create event was missed or filtered): nothing was changed.
    UnknownDevice { device: String },
    /// No row matched: nothing was changed.
    NoEntry,
}

/// Resolves one mount-directory create event against an explicit mount-table
/// snapshot: the first row whose mount path has leaf name `leaf` names the
/// device; if that device is registered, its mount path is set.
pub fn correlate_create(
    reg: &mut DriveRegistry,
    entries: &Vec<MountEntry>,
    leaf: &str,
) -> (r: CorrelateOutcome)
    requires
        old(reg).wf(),
    ensures
        final(reg).wf(),
        match r {
            CorrelateOutcome::Mounted { device, path } => {
                let fm = first_match(entries@, leaf@);
                &&& fm is Some
                &&& path@ == entries@[fm->0].path@
                &&& device@ == leaf_of(entries@[fm->0].source@)
                &&& leaf_of(path@) == leaf@
                &&& old(reg).as_map().contains_key(device@)
                &&& final(reg).as_map() == old(reg).as_map().insert(device@, Some(path@))
                &&& final(reg).entries_seq() == old(reg).entries_seq().update(
                    key_index(old(reg).entries_seq(), device@),
                    (device@, Some(path@)),
                )
            },
            CorrelateOutcome::UnknownDevice { device } => {
                let fm = first_match(entries@, leaf@);
                &&& fm is Some
                &&& device@ == leaf_of(entries@[fm->0].source@)
                &&& !old(reg).as_map().contains_key(device@)
                &&& *final(reg) == *old(reg)
            },
            CorrelateOutcome::NoEntry => {
                &&& first_match(entries@, leaf@) is None
                &&& *final(reg) == *old(reg)
            },
        },
{
    let n = entries.len();
    let mut i: usize = 0;
    while i < n
        invariant
            i <= n,
            n == entries@.len(),
            old(reg).wf(),
            *reg == *old(reg),
            forall|j: int| 0 <= j < i ==> leaf_of(entries@[j].path@) != leaf@,
        decreases n - i,
    {
        let entry_leaf = leaf_name(entries[i].path.as_str());
        if str_eq(entry_leaf.as_str(), leaf) {
            proof {
                lemma_first_match_at(entries@, leaf@, i as int);
            }
            let device = leaf_name(entries[i].source.as_str());
            let path = entries[i].path.clone();
            if reg.set_mount(device.as_str(), path.as_str()) {
                return CorrelateOutcome::Mounted { device, path };
            } else {
                return CorrelateOutcome::UnknownDevice { device };
            }
        }
        i = i + 1;
    }
    proof {
        lemma_first_match(entries@, leaf@);
        if first_match(entries@, leaf@) is Some {
            let k = first_match(entries@, leaf@)->0;
            assert(leaf_of(entries@[k].path@) != leaf@);
        }
    }
    CorrelateOutcome::NoEntry
}

/// Resolves one mount-directory create event against the live mount table.
/// The kernel may report the directory before the mount completes, so the
/// first lookup waits one delay, and a missed or unreadable snapshot is
/// retried, up to [`RETRY_COUNT`] attempts with the same delay in between.
/// When every attempt misses, correlation is abandoned and the registry is
/// left exactly as it was.
pub fn correlate_with_retry(reg: &mut DriveRegistry, leaf: &str) -> (r: CorrelateOutcome)
    requires
        old(reg).wf(),
    ensures
        final(reg).wf(),
        match r {
            CorrelateOutcome::Mounted { device, path } => {
                &&& leaf_of(path@) == leaf@
                &&& old(reg).as_map().contains_key(device@)
                &&& final(reg).as_map() == old(reg).as_map().insert(device@, Some(path@))
                &&& final(reg).entries_seq() == old(reg).entries_seq().update(
                    key_index(old(reg).entries_seq(), device@),
                    (device@, Some(path@)),
                )
            },
            CorrelateOutcome::UnknownDevice { device } => {
                &&& !old(reg).as_map().contains_key(device@)
                &&& *final(reg) == *old(reg)
            },
            CorrelateOutcome::NoEntry => *final(reg) == *old(reg),
        },
{
    delay_millis(RETRY_DELAY_MS);
    let mut attempt: u64 = 0;
    while attempt < RETRY_COUNT
        invariant
            old(reg).wf(),
            *reg == *old(reg),
        decreases RETRY_COUNT - attempt,
    {
        match read_mount_table() {
            Some(entries) => {
                let r = correlate_create(reg, &entries, leaf);
                match r {
                    CorrelateOutcome::NoEntry => {},
                    other => {
                        return other;
                    },
                }
            },
            None => {},
        }
        delay_millis(RETRY_DELAY_MS);
        attempt = attempt + 1;
    }
    CorrelateOutcome::NoEntry
}

} // verus!
