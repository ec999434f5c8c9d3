//! The storage monitor's control-loop step: routes one raw kernel event to
//! the classifier or the correlator, mutates the registry, and decides what
//! is emitted.
//!
//! The surrounding process owns the two kernel watches and the blocking
//! reads; it hands each event here as plain values and performs what the
//! returned [`StepResult`] asks: print the emission line, if any, and log the
//! notice, if any.

use vstd::prelude::*;
use crate::classifier;
use crate::classifier::is_candidate_name;
use crate::correlator;
use crate::correlator::CorrelateOutcome;
use crate::registry::DriveRegistry;
use crate::registry::cleared_entry;
use crate::registry::cleared_value;
use crate::registry::device_create_map;
use crate::registry::key_index;
use crate::registry::registry_line;
use crate::registry::EntryView;
use crate::text::leaf_of;

verus! {

/// Which kernel watch an event came from. `Unknown` stands for a watch
/// identity matching neither known watch: such an event is reported, not
/// treated as impossible.
#[derive(Clone, Copy, Debug, PartialEq, Eq)]
pub enum WatchKind {
    /// The device-node directory watch.
    Device,
    /// The mount-root directory watch.
    Mount,
    /// Neither of the two watches.
    Unknown,
}

/// What happened to the watched directory entry.
#[derive(Clone, Copy, Debug, PartialEq, Eq)]
pub enum EventAction {
    Created,
    Deleted,
}

/// One raw kernel event, reduced to plain values: which watch it came from,
/// what happened, and the entry name (`None` when the kernel reported no
/// name or it could not be decoded as text).
pub struct RawEvent {
    pub watch: WatchKind,
    pub action: EventAction,
    pub name: Option<String>,
}

/// A diagnostic raised while handling one event; the control loop logs it
/// and carries on.
#[derive(Debug, PartialEq, Eq)]
pub enum Notice {
    /// The event carried no usable entry name.
    MissingName,
    /// The event's watch identity matched neither known watch.
    UnknownWatch,
    /// A device event whose name is no candidate partition: ignored.
    NonCandidate,
    /// No mount-table row matched within the whole retry budget: the
    /// correlation was abandoned.
    NoMountEntry,
    /// The matching mount-table row named a device that is not registered.
    UnknownDevice { device: String },
}

/// What the control loop must do after one event: print the emission line
/// exactly once, if one is present, and log the notice, if one is present.
pub struct StepResult {
    pub emission: Option<String>,
    pub notice: Option<Notice>,
}

/// Handles one raw event: device events go through the candidate policy to
/// registry insert/remove, mount events to the correlator; every handled
/// event that may have changed state yields exactly one emission line
/// rendering the new registry.
pub fn handle_event(reg: &mut DriveRegistry, ev: &RawEvent) -> (r: StepResult)
    requires
        old(reg).wf(),
    ensures
        final(reg).wf(),
        // an event without a usable name changes and emits nothing
        ev.name is None ==> *final(reg) == *old(reg) && r.emission is None && r.notice == Some(
            Notice::MissingName,
        ),
        // an unknown watch identity changes and emits nothing
        ev.name is Some && ev.watch is Unknown ==> *final(reg) == *old(reg) && r.emission is None
            && r.notice == Some(Notice::UnknownWatch),
        // a non-candidate device event changes and emits nothing
        ev.name is Some && ev.watch is Device && !is_candidate_name(ev.name->0@) ==> *final(reg)
            == *old(reg) && r.emission is None && r.notice == Some(Notice::NonCandidate),
        // a candidate attach registers the key, absent a mount path, unless
        // it is already present, and emits the new snapshot
        ev.name is Some && ev.watch is Device && is_candidate_name(ev.name->0@) && ev.action
            is Created ==> {
            &&& final(reg).as_map() == device_create_map(old(reg).as_map(), ev.name->0@)
            &&& final(reg).entries_seq() == if old(reg).as_map().contains_key(ev.name->0@) {
                old(reg).entries_seq()
            } else {
                old(reg).entries_seq().push((ev.name->0@, None::<Seq<char>>))
            }
            &&& old(reg).as_map().contains_key(ev.name->0@) ==> *final(reg) == *old(reg)
            &&& r.emission is Some
            &&& r.emission->0@ == registry_line(final(reg).entries_seq())
            &&& r.notice is None
        },
        // a candidate detach removes the key entirely, whatever its mount
        // path held, and emits the new snapshot
        ev.name is Some && ev.watch is Device && is_candidate_name(ev.name->0@) && ev.action
            is Deleted ==> {
            &&& final(reg).as_map() == old(reg).as_map().remove(ev.name->0@)
            &&& final(reg).entries_seq() == if old(reg).as_map().contains_key(ev.name->0@) {
                old(reg).entries_seq().remove(key_index(old(reg).entries_seq(), ev.name->0@))
            } else {
                old(reg).entries_seq()
            }
            &&& r.emission is Some
            &&& r.emission->0@ == registry_line(final(reg).entries_seq())
            &&& r.notice is None
        },
        // a mount-directory create is correlated against the live mount
        // table; whatever came of it, the snapshot is emitted
        ev.name is Some && ev.watch is Mount && ev.action is Created ==> {
            &&& r.emission is Some
            &&& r.emission->0@ == registry_line(final(reg).entries_seq())
            &&& match r.notice {
                None => exists|device: Seq<char>, path: Seq<char>|
                    {
                        &&& leaf_of(path) == ev.name->0@
                        &&& old(reg).as_map().contains_key(device)
                        &&& final(reg).as_map() == old(reg).as_map().insert(device, Some(path))
                    },
                Some(Notice::NoMountEntry) => *final(reg) == *old(reg),
                Some(Notice::UnknownDevice { device }) => *final(reg) == *old(reg) && !old(
                    reg,
                ).as_map().contains_key(device@),
                Some(_) => false,
            }
        },
        // a mount-directory delete resets every matching mount path to
        // absent, keeps all keys, and emits the new snapshot
        ev.name is Some && ev.watch is Mount && ev.action is Deleted ==> {
            &&& final(reg).entries_seq() == old(reg).entries_seq().map_values(
                |e: EntryView| cleared_entry(e, ev.name->0@),
            )
            &&& final(reg).as_map().dom() == old(reg).as_map().dom()
            &&& forall|k: Seq<char>|
                old(reg).as_map().contains_key(k) ==> final(reg).as_map()[k] == cleared_value(
                    old(reg).as_map()[k],
                    ev.name->0@,
                )
            &&& r.emission is Some
            &&& r.emission->0@ == registry_line(final(reg).entries_seq())
            &&& r.notice is None
        },
{
    let name = match &ev.name {
        Some(name) => name,
        None => {
            return StepResult { emission: None, notice: Some(Notice::MissingName) };
        },
    };
    match ev.watch {
        WatchKind::Unknown => StepResult { emission: None, notice: Some(Notice::UnknownWatch) },
        WatchKind::Device => {
            if !classifier::is_candidate_partition(name.as_str()) {
                return StepResult { emission: None, notice: Some(Notice::NonCandidate) };
            }
            match ev.action {
                EventAction::Created => {
                    reg.insert_device(name.as_str());
                },
                EventAction::Deleted => {
                    reg.remove_device(name.as_str());
                },
            }
            StepResult { emission: Some(reg.render_line()), notice: None }
        },
        WatchKind::Mount => {
            match ev.action {
                EventAction::Created => {
                    let outcome = correlator::correlate_with_retry(reg, name.as_str());
                    let notice = match outcome {
                        CorrelateOutcome::Mounted { .. } => None,
                        CorrelateOutcome::UnknownDevice { device } => Some(
                            Notice::UnknownDevice { device },
                        ),
                        CorrelateOutcome::NoEntry => Some(Notice::NoMountEntry),
                    };
                    StepResult { emission: Some(reg.render_line()), notice }
                },
                EventAction::Deleted => {
                    reg.clear_mounts_with_leaf(name.as_str());
                    StepResult { emission: Some(reg.render_line()), notice: None }
                },
            }
        },
    }
}

} // verus!

