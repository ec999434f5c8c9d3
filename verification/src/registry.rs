//! The drive registry: the authoritative in-memory state of the storage
//! monitor, a mapping from device key (the partition node name, e.g. `sdb1`)
//! to its optional mount path.
//!
//! The registry is stored as a vector of key/value pairs with pairwise
//! distinct keys, in insertion order; its mathematical model is the map from
//! key to optional mount path, built by [`entries_to_map`]. A key is present
//! exactly while the device is attached; its value is `Some(path)` exactly
//! while a mount-directory event has been correlated to it and no matching
//! unmount has been seen since.

use vstd::prelude::*;
use vstd::string::StringExecFns;
use crate::emit;
use crate::text::leaf_of;
use crate::text::str_eq;

verus! {

/// The model of one registry entry: device key and optional mount path.
pub type EntryView = (Seq<char>, Option<Seq<char>>);

/// The map modeled by an entry sequence: later entries would win, though a
/// well-formed registry never repeats a key.
pub open spec fn entries_to_map(s: Seq<EntryView>) -> Map<Seq<char>, Option<Seq<char>>>
    decreases s.len(),
{
    if s.len() == 0 {
        Map::empty()
    } else {
        entries_to_map(s.drop_last()).insert(s.last().0, s.last().1)
    }
}

/// Pairwise distinct device keys.
pub open spec fn unique_keys(s: Seq<EntryView>) -> bool {
    forall|i: int, j: int| 0 <= i < j < s.len() ==> s[i].0 != s[j].0
}

/// The index of the entry holding key `k` (unique when keys are distinct).
pub open spec fn key_index(s: Seq<EntryView>, k: Seq<char>) -> int {
    choose|i: int| 0 <= i < s.len() && s[i].0 == k
}

/// A key is in the modeled map exactly when some entry holds it.
pub proof fn lemma_map_contains(s: Seq<EntryView>, k: Seq<char>)
    ensures
        entries_to_map(s).contains_key(k) <==> exists|i: int| 0 <= i < s.len() && s[i].0 == k,
    decreases s.len(),
{
    if s.len() > 0 {
        lemma_map_contains(s.drop_last(), k);
        if entries_to_map(s).contains_key(k) {
            if k == s.last().0 {
                assert(s[s.len() - 1].0 == k);
            } else {
                let i = choose|i: int| 0 <= i < s.drop_last().len() && s.drop_last()[i].0 == k;
                assert(s[i].0 == k);
            }
        }
        if exists|i: int| 0 <= i < s.len() && s[i].0 == k {
            let i = choose|i: int| 0 <= i < s.len() && s[i].0 == k;
            if i < s.len() - 1 {
                assert(s.drop_last()[i].0 == k);
            }
        }
    }
}

/// With distinct keys, the modeled map sends each entry's key to its value.
pub proof fn lemma_map_value(s: Seq<EntryView>, i: int)
    requires
        unique_keys(s),
        0 <= i < s.len(),
    ensures
        entries_to_map(s).contains_key(s[i].0),
        entries_to_map(s)[s[i].0] == s[i].1,
    decreases s.len(),
{
    if i == s.len() - 1 {
    } else {
        assert(s.drop_last()[i] == s[i]);
        lemma_map_value(s.drop_last(), i);
    }
}

/// Appending a fresh key inserts it into the modeled map.
pub proof fn lemma_map_push(s: Seq<EntryView>, e: EntryView)
    ensures
        entries_to_map(s.push(e)) == entries_to_map(s).insert(e.0, e.1),
{
    assert(s.push(e).drop_last() =~= s);
}

/// Replacing the value at one index updates the modeled map at its key.
pub proof fn lemma_map_update(s: Seq<EntryView>, i: int, v: Option<Seq<char>>)
    requires
        unique_keys(s),
        0 <= i < s.len(),
    ensures
        entries_to_map(s.update(i, (s[i].0, v))) == entries_to_map(s).insert(s[i].0, v),
    decreases s.len(),
{
    let t = s.update(i, (s[i].0, v));
    if i == s.len() - 1 {
        assert(t.drop_last() =~= s.drop_last());
        assert(entries_to_map(t) =~= entries_to_map(s).insert(s[i].0, v));
    } else {
        assert(t.drop_last() =~= s.drop_last().update(i, (s[i].0, v)));
        assert(s.drop_last()[i] == s[i]);
        lemma_map_update(s.drop_last(), i, v);
        // the updated key differs from the last key, so the two inserts commute
        assert(s[i].0 != s.last().0);
        assert(entries_to_map(t) =~= entries_to_map(s).insert(s[i].0, v));
    }
}

/// Removing one entry removes its key from the modeled map.
pub proof fn lemma_map_remove(s: Seq<EntryView>, i: int)
    requires
        unique_keys(s),
        0 <= i < s.len(),
    ensures
        entries_to_map(s.remove(i)) == entries_to_map(s).remove(s[i].0),
    decreases s.len(),
{
    let t = s.remove(i);
    if i == s.len() - 1 {
        assert(t =~= s.drop_last());
        lemma_map_contains(s.drop_last(), s[i].0);
        // the removed key sits in no earlier entry, so removing it is a no-op there
        assert(entries_to_map(s.drop_last()) =~= entries_to_map(s).remove(s[i].0));
    } else {
        assert(t.drop_last() =~= s.drop_last().remove(i));
        assert(t.last() == s.last());
        assert(s.drop_last()[i] == s[i]);
        lemma_map_remove(s.drop_last(), i);
        assert(s[i].0 != s.last().0);
        assert(entries_to_map(t) =~= entries_to_map(s).remove(s[i].0));
    }
}

/// The registry: device keys with their optional mount paths, keys distinct.
pub struct DriveRegistry {
    entries: Vec<(String, Option<String>)>,
}

impl DriveRegistry {
    /// The entries in insertion order, as mathematical values.
    pub closed spec fn entries_seq(self) -> Seq<EntryView> {
        self.entries.deep_view()
    }

    /// Well-formedness: no device key occurs twice.
    pub open spec fn wf(self) -> bool {
        unique_keys(self.entries_seq())
    }

    /// The modeled mapping from device key to optional mount path.
    pub open spec fn as_map(self) -> Map<Seq<char>, Option<Seq<char>>> {
        entries_to_map(self.entries_seq())
    }

    /// An empty registry.
    pub fn new() -> (r: Self)
        ensures
            r.wf(),
            r.entries_seq() == Seq::<EntryView>::empty(),
            r.as_map() == Map::<Seq<char>, Option<Seq<char>>>::empty(),
    {
        let r = DriveRegistry { entries: Vec::new() };
        proof {
            assert(r.entries_seq() =~= Seq::<EntryView>::empty());
        }
        r
    }

    /// How many devices are registered.
    pub fn len(&self) -> (n: usize)
        ensures
            n == self.entries_seq().len(),
    {
        self.entries.len()
    }

    fn find_index(&self, device: &str) -> (r: Option<usize>)
        ensures
            match r {
                Some(i) => 0 <= i < self.entries_seq().len() && self.entries_seq()[i as int].0
                    == device@,
                None => forall|i: int|
                    0 <= i < self.entries_seq().len() ==> self.entries_seq()[i].0 != device@,
            },
    {
        let n = self.entries.len();
        let mut i: usize = 0;
        while i < n
            invariant
                i <= n,
                n == self.entries_seq().len(),
                n == self.entries@.len(),
                forall|j: int| 0 <= j < i ==> self.entries_seq()[j].0 != device@,
            decreases n - i,
        {
            proof {
                assert(self.entries_seq()[i as int].0 == self.entries@[i as int].0@);
            }
            if str_eq(self.entries[i].0.as_str(), device) {
                return Some(i);
            }
            i = i + 1;
        }
        None
    }

    /// Whether `device` is currently registered.
    pub fn contains_device(&self, device: &str) -> (r: bool)
        ensures
            r == self.as_map().contains_key(device@),
    {
        proof {
            lemma_map_contains(self.entries_seq(), device@);
        }
        self.find_index(device).is_some()
    }

    /// Registers `device` with no mount path. Present keys are left exactly
    /// as they are: a repeated attach event neither duplicates the entry nor
    /// touches a correlated mount path.
    pub fn insert_device(&mut self, device: &str) -> (added: bool)
        requires
            old(self).wf(),
        ensures
            final(self).wf(),
            added == !old(self).as_map().contains_key(device@),
            final(self).as_map() == device_create_map(old(self).as_map(), device@),
            final(self).entries_seq() == if added {
                old(self).entries_seq().push((device@, None::<Seq<char>>))
            } else {
                old(self).entries_seq()
            },
            !added ==> *final(self) == *old(self),
    {
        proof {
            lemma_map_contains(self.entries_seq(), device@);
        }
        match self.find_index(device) {
            Some(_) => false,
            None => {
                self.entries.push((String::from_str(device), None));
                proof {
                    assert(self.entries_seq() =~= old(self).entries_seq().push(
                        (device@, None::<Seq<char>>),
                    ));
                    lemma_map_push(old(self).entries_seq(), (device@, None::<Seq<char>>));
                }
                true
            },
        }
    }

    /// Unregisters `device` entirely, whatever its mount path held.
    pub fn remove_device(&mut self, device: &str) -> (removed: bool)
        requires
            old(self).wf(),
        ensures
            final(self).wf(),
            removed == old(self).as_map().contains_key(device@),
            final(self).as_map() == old(self).as_map().remove(device@),
            final(self).entries_seq() == if removed {
                old(self).entries_seq().remove(key_index(old(self).entries_seq(), device@))
            } else {
                old(self).entries_seq()
            },
            !removed ==> *final(self) == *old(self),
    {
        proof {
            lemma_map_contains(self.entries_seq(), device@);
        }
        match self.find_index(device) {
            Some(i) => {
                proof {
                    lemma_map_remove(self.entries_seq(), i as int);
                    assert(key_index(old(self).entries_seq(), device@) == i as int);
                }
                self.entries.remove(i);
                proof {
                    assert(self.entries_seq() =~= old(self).entries_seq().remove(i as int));
                }
                true
            },
            None => {
                proof {
                    assert(self.as_map() =~= self.as_map().remove(device@));
                }
                false
            },
        }
    }

    /// Records that `device` is mounted at `path`. Returns whether the device
    /// was registered; an unregistered device is left alone.
    pub fn set_mount(&mut self, device: &str, path: &str) -> (found: bool)
        requires
            old(self).wf(),
        ensures
            final(self).wf(),
            found == old(self).as_map().contains_key(device@),
            final(self).as_map() == if found {
                old(self).as_map().insert(device@, Some(path@))
            } else {
                old(self).as_map()
            },
            final(self).entries_seq() == if found {
                old(self).entries_seq().update(
                    key_index(old(self).entries_seq(), device@),
                    (device@, Some(path@)),
                )
            } else {
                old(self).entries_seq()
            },
            !found ==> *final(self) == *old(self),
    {
        proof {
            lemma_map_contains(self.entries_seq(), device@);
        }
        match self.find_index(device) {
            Some(i) => {
                proof {
                    lemma_map_update(self.entries_seq(), i as int, Some(path@));
                    assert(key_index(old(self).entries_seq(), device@) == i as int);
                }
                self.entries[i].1 = Some(String::from_str(path));
                proof {
                    assert(self.entries_seq() =~= old(self).entries_seq().update(
                        i as int,
                        (device@, Some(path@)),
                    ));
                }
                true
            },
            None => false,
        }
    }
}

/// What a mount-directory delete event with leaf name `leaf` does to one
/// mount-path value: a path whose leaf matches reverts to absent, everything
/// else is untouched.
pub open spec fn cleared_value(v: Option<Seq<char>>, leaf: Seq<char>) -> Option<Seq<char>> {
    match v {
        Some(p) => if leaf_of(p) == leaf {
            None
        } else {
            Some(p)
        },
        None => None,
    }
}

/// [`cleared_value`] applied to an entry; the key is kept.
pub open spec fn cleared_entry(e: EntryView, leaf: Seq<char>) -> EntryView {
    (e.0, cleared_value(e.1, leaf))
}

/// Clearing mount paths entry by entry clears the modeled map value by value
/// and keeps its domain.
pub proof fn lemma_map_cleared(s: Seq<EntryView>, leaf: Seq<char>)
    requires
        unique_keys(s),
    ensures
        entries_to_map(s.map_values(|e: EntryView| cleared_entry(e, leaf))).dom() == entries_to_map(
            s,
        ).dom(),
        forall|k: Seq<char>|
            entries_to_map(s).contains_key(k) ==> entries_to_map(
                s.map_values(|e: EntryView| cleared_entry(e, leaf)),
            )[k] == cleared_value(entries_to_map(s)[k], leaf),
    decreases s.len(),
{
    let t = s.map_values(|e: EntryView| cleared_entry(e, leaf));
    if s.len() == 0 {
        assert(t.len() == 0);
        assert(entries_to_map(t).dom() =~= entries_to_map(s).dom());
    } else {
        assert(t.drop_last() =~= s.drop_last().map_values(|e: EntryView| cleared_entry(e, leaf)));
        assert(t.last() == cleared_entry(s.last(), leaf));
        lemma_map_cleared(s.drop_last(), leaf);
        assert(entries_to_map(t).dom() =~= entries_to_map(s).dom());
    }
}

impl DriveRegistry {
    /// Resets to absent the mount path of every entry whose current path has
    /// leaf name `leaf`; keys stay registered.
    pub fn clear_mounts_with_leaf(&mut self, leaf: &str)
        requires
            old(self).wf(),
        ensures
            final(self).wf(),
            final(self).entries_seq() == old(self).entries_seq().map_values(
                |e: EntryView| cleared_entry(e, leaf@),
            ),
            final(self).as_map().dom() == old(self).as_map().dom(),
            forall|k: Seq<char>|
                old(self).as_map().contains_key(k) ==> final(self).as_map()[k] == cleared_value(
                    old(self).as_map()[k],
                    leaf@,
                ),
    {
        let ghost s0 = self.entries_seq();
        let n = self.entries.len();
        let mut i: usize = 0;
        while i < n
            invariant
                i <= n,
                n == self.entries@.len(),
                s0.len() == n,
                forall|j: int| 0 <= j < i ==> self.entries_seq()[j] == cleared_entry(s0[j], leaf@),
                forall|j: int| i <= j < n ==> self.entries_seq()[j] == s0[j],
            decreases n - i,
        {
            let ghost before = self.entries@;
            let ghost before_seq = self.entries_seq();
            proof {
                assert(before_seq[i as int].1 == match before[i as int].1 {
                    Some(p) => Some(p@),
                    None => None::<Seq<char>>,
                });
            }
            let must_clear = match &self.entries[i].1 {
                Some(p) => crate::text::leaf_name(p.as_str()) == String::from_str(leaf),
                None => false,
            };
            proof {
                assert(must_clear == (s0[i as int].1 is Some && leaf_of(s0[i as int].1->0)
                    == leaf@));
            }
            if must_clear {
                self.entries[i].1 = None;
            }
            proof {
                assert forall|j: int| 0 <= j < n && j != i implies self.entries_seq()[j]
                    == before_seq[j] by {
                    assert(self.entries@[j] == before[j]);
                }
                assert(self.entries_seq()[i as int].0 == before_seq[i as int].0);
                assert(self.entries_seq()[i as int] == cleared_entry(s0[i as int], leaf@));
                assert forall|j: int| 0 <= j <= i implies self.entries_seq()[j] == cleared_entry(
                    s0[j],
                    leaf@,
                ) by {
                    if j != i {
                        assert(self.entries_seq()[j] == before_seq[j]);
                        assert(before_seq[j] == cleared_entry(s0[j], leaf@));
                    }
                }
            }
            i = i + 1;
        }
        proof {
            assert(self.entries_seq() =~= s0.map_values(|e: EntryView| cleared_entry(e, leaf@)));
            lemma_map_cleared(s0, leaf@);
        }
    }

    /// Renders the registry snapshot as the one-line JSON envelope: the full
    /// mapping when any device is registered, the absence marker otherwise.
    pub fn render_line(&self) -> (r: String)
        ensures
            r@ == registry_line(self.entries_seq()),
    {
        let n = self.entries.len();
        if n == 0 {
            return emit::emit_line(None);
        }
        let mut data = String::from_str("{");
        let mut i: usize = 0;
        while i < n
            invariant
                i <= n,
                0 < n,
                n == self.entries@.len(),
                n == self.entries_seq().len(),
                data@ == "{"@ + entries_json(self.entries_seq().subrange(0, i as int)),
            decreases n - i,
        {
            if i > 0 {
                data.append(",");
            }
            proof {
                assert(self.entries_seq()[i as int].0 == self.entries@[i as int].0@);
                assert(self.entries_seq()[i as int].1 == match self.entries@[i as int].1 {
                    Some(p) => Some(p@),
                    None => None::<Seq<char>>,
                });
            }
            emit::append_json_string(&mut data, self.entries[i].0.as_str());
            data.append(":");
            match &self.entries[i].1 {
                Some(p) => {
                    emit::append_json_string(&mut data, p.as_str());
                },
                None => {
                    data.append("null");
                },
            }
            proof {
                lemma_entries_json_step(self.entries_seq(), i as int);
            }
            i = i + 1;
        }
        data.append("}");
        proof {
            assert(self.entries_seq().subrange(0, n as int) =~= self.entries_seq());
        }
        emit::emit_line(Some(data.as_str()))
    }
}

/// One registry entry as a JSON object member: the key as a JSON string, a
/// colon, and the mount path as a JSON string or `null`.
pub open spec fn entry_json(e: EntryView) -> Seq<char> {
    emit::json_string(e.0) + ":"@ + match e.1 {
        Some(p) => emit::json_string(p),
        None => "null"@,
    }
}

/// The members of the registry object, joined with commas, in entry order.
pub open spec fn entries_json(s: Seq<EntryView>) -> Seq<char>
    decreases s.len(),
{
    if s.len() == 0 {
        Seq::empty()
    } else if s.len() == 1 {
        entry_json(s[0])
    } else {
        entries_json(s.drop_last()) + ","@ + entry_json(s.last())
    }
}

proof fn lemma_entries_json_step(s: Seq<EntryView>, i: int)
    requires
        0 <= i < s.len(),
    ensures
        i == 0 ==> entries_json(s.subrange(0, 1)) == entry_json(s[0]),
        i > 0 ==> entries_json(s.subrange(0, i + 1)) == entries_json(s.subrange(0, i)) + ","@
            + entry_json(s[i]),
{
    let t = s.subrange(0, i + 1);
    assert(t.drop_last() =~= s.subrange(0, i));
    assert(t.last() == s[i]);
    if i == 0 {
        assert(t[0] == s[0]);
    }
}

/// The emitted line for a registry with these entries: the JSON object of all
/// members under status flag 1, or the absence envelope when no device is
/// registered.
pub open spec fn registry_line(s: Seq<EntryView>) -> Seq<char> {
    if s.len() == 0 {
        emit::snapshot_line(None)
    } else {
        emit::snapshot_line(Some("{"@ + entries_json(s) + "}"@))
    }
}

/// What a device-create event does to the modeled map: a fresh key is bound
/// to no mount path, a present key is left untouched.
pub open spec fn device_create_map(
    m: Map<Seq<char>, Option<Seq<char>>>,
    device: Seq<char>,
) -> Map<Seq<char>, Option<Seq<char>>> {
    if m.contains_key(device) {
        m
    } else {
        m.insert(device, None)
    }
}

/// A device-create event always leaves its key registered: a fresh key is
/// bound to an absent mount path, a present key keeps whatever mount path it
/// already had.
pub proof fn lemma_device_create_registers(m: Map<Seq<char>, Option<Seq<char>>>, device: Seq<char>)
    ensures
        device_create_map(m, device).contains_key(device),
        !m.contains_key(device) ==> device_create_map(m, device)[device] is None,
        m.contains_key(device) ==> device_create_map(m, device) == m,
{
}

/// Device-create events are idempotent: handling the same attach twice leaves
/// exactly the state that handling it once left.
pub proof fn lemma_device_create_idempotent(m: Map<Seq<char>, Option<Seq<char>>>, device: Seq<char>)
    ensures
        device_create_map(device_create_map(m, device), device) == device_create_map(m, device),
{
}

} // verus!
