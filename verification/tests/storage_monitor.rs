use pfui::correlator::correlate_create;
use pfui::correlator::CorrelateOutcome;
use pfui::monitor::handle_event;
use pfui::monitor::EventAction;
use pfui::monitor::Notice;
use pfui::monitor::RawEvent;
use pfui::monitor::WatchKind;
use pfui::mounts::MountEntry;
use pfui::registry::DriveRegistry;

fn device_event(action: EventAction, name: &str) -> RawEvent {
    RawEvent { watch: WatchKind::Device, action, name: Some(name.to_string()) }
}

fn mount_event(action: EventAction, name: &str) -> RawEvent {
    RawEvent { watch: WatchKind::Mount, action, name: Some(name.to_string()) }
}

#[test]
fn candidate_create_registers_and_emits() {
    let mut reg = DriveRegistry::new();
    let r = handle_event(&mut reg, &device_event(EventAction::Created, "sdb1"));
    assert_eq!(r.emission.as_deref(), Some("{\"ok\":1,\"data\":{\"sdb1\":null}}"));
    assert!(r.notice.is_none());
    assert!(reg.contains_device("sdb1"));
}

#[test]
fn two_candidates_emit_in_insertion_order() {
    let mut reg = DriveRegistry::new();
    handle_event(&mut reg, &device_event(EventAction::Created, "sdb1"));
    let r = handle_event(&mut reg, &device_event(EventAction::Created, "sdc2"));
    assert_eq!(
        r.emission.as_deref(),
        Some("{\"ok\":1,\"data\":{\"sdb1\":null,\"sdc2\":null}}")
    );
}

#[test]
fn non_candidate_names_change_nothing() {
    let mut reg = DriveRegistry::new();
    for name in ["sdb", "sr0", "nvme0n1", "1sd", "sd", ""] {
        let r = handle_event(&mut reg, &device_event(EventAction::Created, name));
        assert!(r.emission.is_none());
        assert_eq!(r.notice, Some(Notice::NonCandidate));
        assert!(!reg.contains_device(name));
    }
    assert_eq!(reg.len(), 0);
}

#[test]
fn non_candidate_delete_changes_nothing() {
    let mut reg = DriveRegistry::new();
    handle_event(&mut reg, &device_event(EventAction::Created, "sdb1"));
    let r = handle_event(&mut reg, &device_event(EventAction::Deleted, "sdb"));
    assert!(r.emission.is_none());
    assert_eq!(r.notice, Some(Notice::NonCandidate));
    assert!(reg.contains_device("sdb1"));
}

#[test]
fn mount_create_resolves_to_registered_device() {
    let mut reg = DriveRegistry::new();
    handle_event(&mut reg, &device_event(EventAction::Created, "sdb1"));
    let entries = vec![
        MountEntry {
            source: "/dev/sda2".to_string(),
            path: "/run/media/user/OTHER".to_string(),
        },
        MountEntry {
            source: "/dev/sdb1".to_string(),
            path: "/run/media/user/STICK".to_string(),
        },
    ];
    let outcome = correlate_create(&mut reg, &entries, "STICK");
    match outcome {
        CorrelateOutcome::Mounted { device, path } => {
            assert_eq!(device, "sdb1");
            assert_eq!(path, "/run/media/user/STICK");
        }
        other => panic!("unexpected outcome {:?}", other),
    }
    assert_eq!(
        reg.render_line(),
        "{\"ok\":1,\"data\":{\"sdb1\":\"/run/media/user/STICK\"}}"
    );
}

#[test]
fn first_matching_mount_row_wins() {
    let mut reg = DriveRegistry::new();
    handle_event(&mut reg, &device_event(EventAction::Created, "sdb1"));
    handle_event(&mut reg, &device_event(EventAction::Created, "sdc1"));
    let entries = vec![
        MountEntry {
            source: "/dev/sdb1".to_string(),
            path: "/mnt/a/STICK".to_string(),
        },
        MountEntry {
            source: "/dev/sdc1".to_string(),
            path: "/mnt/b/STICK".to_string(),
        },
    ];
    let outcome = correlate_create(&mut reg, &entries, "STICK");
    match outcome {
        CorrelateOutcome::Mounted { device, path } => {
            assert_eq!(device, "sdb1");
            assert_eq!(path, "/mnt/a/STICK");
        }
        other => panic!("unexpected outcome {:?}", other),
    }
}

#[test]
fn mount_create_for_unregistered_device_is_skipped() {
    let mut reg = DriveRegistry::new();
    handle_event(&mut reg, &device_event(EventAction::Created, "sdb1"));
    let entries = vec![MountEntry {
        source: "/dev/sdz9".to_string(),
        path: "/run/media/user/GHOST".to_string(),
    }];
    let outcome = correlate_create(&mut reg, &entries, "GHOST");
    match outcome {
        CorrelateOutcome::UnknownDevice { device } => assert_eq!(device, "sdz9"),
        other => panic!("unexpected outcome {:?}", other),
    }
    assert_eq!(reg.render_line(), "{\"ok\":1,\"data\":{\"sdb1\":null}}");
}

#[test]
fn mount_delete_resets_matching_paths_and_keeps_keys() {
    let mut reg = DriveRegistry::new();
    handle_event(&mut reg, &device_event(EventAction::Created, "sdb1"));
    let entries = vec![MountEntry {
        source: "/dev/sdb1".to_string(),
        path: "/run/media/user/STICK".to_string(),
    }];
    correlate_create(&mut reg, &entries, "STICK");
    let r = handle_event(&mut reg, &mount_event(EventAction::Deleted, "STICK"));
    assert_eq!(r.emission.as_deref(), Some("{\"ok\":1,\"data\":{\"sdb1\":null}}"));
    assert!(r.notice.is_none());
    assert!(reg.contains_device("sdb1"));
}

#[test]
fn mount_delete_with_other_leaf_leaves_path() {
    let mut reg = DriveRegistry::new();
    handle_event(&mut reg, &device_event(EventAction::Created, "sdb1"));
    let entries = vec![MountEntry {
        source: "/dev/sdb1".to_string(),
        path: "/run/media/user/STICK".to_string(),
    }];
    correlate_create(&mut reg, &entries, "STICK");
    let r = handle_event(&mut reg, &mount_event(EventAction::Deleted, "OTHER"));
    assert_eq!(
        r.emission.as_deref(),
        Some("{\"ok\":1,\"data\":{\"sdb1\":\"/run/media/user/STICK\"}}")
    );
}

#[test]
fn device_delete_removes_key_and_empty_registry_emits_absence() {
    let mut reg = DriveRegistry::new();
    handle_event(&mut reg, &device_event(EventAction::Created, "sdb1"));
    let entries = vec![MountEntry {
        source: "/dev/sdb1".to_string(),
        path: "/run/media/user/STICK".to_string(),
    }];
    correlate_create(&mut reg, &entries, "STICK");
    let r = handle_event(&mut reg, &device_event(EventAction::Deleted, "sdb1"));
    assert_eq!(r.emission.as_deref(), Some("{\"ok\":0,\"data\":null}"));
    assert!(!reg.contains_device("sdb1"));
    assert_eq!(reg.len(), 0);
}

#[test]
fn duplicate_device_create_is_idempotent() {
    let mut reg = DriveRegistry::new();
    handle_event(&mut reg, &device_event(EventAction::Created, "sdb1"));
    let entries = vec![MountEntry {
        source: "/dev/sdb1".to_string(),
        path: "/run/media/user/STICK".to_string(),
    }];
    correlate_create(&mut reg, &entries, "STICK");
    let r = handle_event(&mut reg, &device_event(EventAction::Created, "sdb1"));
    assert_eq!(
        r.emission.as_deref(),
        Some("{\"ok\":1,\"data\":{\"sdb1\":\"/run/media/user/STICK\"}}")
    );
    assert_eq!(reg.len(), 1);
}

#[test]
fn abandoned_correlation_leaves_registry_unchanged() {
    let mut reg = DriveRegistry::new();
    handle_event(&mut reg, &device_event(EventAction::Created, "sdb1"));
    // no mount on this host ever carries this leaf, so every attempt of the
    // retry budget misses (about a second of real delays)
    let r = handle_event(
        &mut reg,
        &mount_event(EventAction::Created, "no-such-mount-leaf-for-this-monitor"),
    );
    assert_eq!(r.notice, Some(Notice::NoMountEntry));
    assert_eq!(r.emission.as_deref(), Some("{\"ok\":1,\"data\":{\"sdb1\":null}}"));
}

#[test]
fn event_without_name_is_reported_and_skipped() {
    let mut reg = DriveRegistry::new();
    let ev = RawEvent { watch: WatchKind::Device, action: EventAction::Created, name: None };
    let r = handle_event(&mut reg, &ev);
    assert!(r.emission.is_none());
    assert_eq!(r.notice, Some(Notice::MissingName));
    assert_eq!(reg.len(), 0);
}

#[test]
fn unknown_watch_is_reported_and_skipped() {
    let mut reg = DriveRegistry::new();
    let ev = RawEvent {
        watch: WatchKind::Unknown,
        action: EventAction::Created,
        name: Some("sdb1".to_string()),
    };
    let r = handle_event(&mut reg, &ev);
    assert!(r.emission.is_none());
    assert_eq!(r.notice, Some(Notice::UnknownWatch));
    assert_eq!(reg.len(), 0);
}

#[test]
fn empty_mount_table_yields_no_entry() {
    let mut reg = DriveRegistry::new();
    handle_event(&mut reg, &device_event(EventAction::Created, "sdb1"));
    let entries: Vec<MountEntry> = Vec::new();
    let outcome = correlate_create(&mut reg, &entries, "STICK");
    assert_eq!(outcome, CorrelateOutcome::NoEntry);
    assert_eq!(reg.render_line(), "{\"ok\":1,\"data\":{\"sdb1\":null}}");
}
