use ktrl::devices::{Devices, WatchError};

fn strings(v: &[&str]) -> Vec<String> {
    v.iter().map(|s| s.to_string()).collect()
}

#[test]
fn enumeration_keeps_exactly_the_matching_entries() {
    let listing = strings(&[
        "event0",
        "mouse1",
        "event12",
        "evnt3",
        "README",
        "event",
        "eventX",
        "myevent7thing",
        "Event0",
    ]);
    let found = Devices::get_all_input_devices(&listing);
    assert_eq!(
        found,
        strings(&[
            "/dev/input/event0",
            "/dev/input/event12",
            "/dev/input/myevent7thing",
        ])
    );
}

#[test]
fn enumeration_of_no_matches_is_empty() {
    let listing = strings(&["mouse0", "js0", "by-id", "ev3nt0"]);
    let found = Devices::get_all_input_devices(&listing);
    assert!(found.is_empty());
}

#[test]
fn construction_with_explicit_list_restricts_discovery() {
    let explicit = strings(&["/dev/input/event1", "/dev/input/event2"]);
    let d = Devices::new(true, explicit.clone(), &strings(&[]));
    assert!(d.watch);
    assert!(d.watch_initial_only);
    assert_eq!(d.devices, explicit);
    assert!(d.events.is_empty());
}

#[test]
fn construction_with_empty_list_enumerates_the_listing() {
    let listing = strings(&["event3", "mouse0", "event4"]);
    let d = Devices::new(true, Vec::new(), &listing);
    assert!(!d.watch_initial_only);
    assert_eq!(d.devices, strings(&["/dev/input/event3", "/dev/input/event4"]));
}

#[test]
fn watch_without_enable_fails_loudly() {
    let mut d = Devices::new(false, strings(&["/dev/input/event1"]), &strings(&[]));
    let r = d.watch(&strings(&["event1"]));
    assert_eq!(r, Err(WatchError::NotEnabled));
}

#[test]
fn watch_initial_only_filters_out_unknown_paths() {
    // Allow-list {A, B}: a discovery notification for C never surfaces,
    // while one for A does.
    let a = "/dev/input/event1".to_string();
    let b = "/dev/input/event2".to_string();
    let mut d = Devices::new(true, vec![a.clone(), b.clone()], &strings(&[]));
    let r = d.watch(&strings(&["event9", "event1"]));
    assert_eq!(r, Ok(Some(a)));
    // Nothing else is pending: C was discarded, not queued.
    let r2 = d.watch(&strings(&[]));
    assert_eq!(r2, Ok(None));
}

#[test]
fn watch_hands_out_a_batch_in_fifo_order() {
    let mut d = Devices::new(true, Vec::new(), &strings(&["event0"]));
    let r1 = d.watch(&strings(&["event5", "junk", "event6"]));
    assert_eq!(r1, Ok(Some("/dev/input/event5".to_string())));
    let r2 = d.watch(&strings(&[]));
    assert_eq!(r2, Ok(Some("/dev/input/event6".to_string())));
    let r3 = d.watch(&strings(&[]));
    assert_eq!(r3, Ok(None));
}

#[test]
fn watch_requeues_a_recreated_path() {
    // A node removed and recreated is a distinct discovery each time.
    let mut d = Devices::new(true, Vec::new(), &strings(&[]));
    assert_eq!(
        d.watch(&strings(&["event7"])),
        Ok(Some("/dev/input/event7".to_string()))
    );
    assert_eq!(
        d.watch(&strings(&["event7"])),
        Ok(Some("/dev/input/event7".to_string()))
    );
}
