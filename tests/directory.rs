use event_parse::{entry_index, parse_index, scan_entries, select_device, DirEntry, Error};

fn file(name: &str) -> DirEntry {
    DirEntry { name: name.to_string(), is_dir: false }
}

fn dir(name: &str) -> DirEntry {
    DirEntry { name: name.to_string(), is_dir: true }
}

#[test]
fn scan_aborts_on_first_bad_index() {
    let entries = vec![file("event0"), file("event7"), file("mouse0"), file("eventX")];
    match scan_entries(&entries) {
        Err(Error::InvalidIndex(name)) => assert_eq!(name, "eventX"),
        other => panic!("expected InvalidIndex, got {:?}", other),
    }
}

#[test]
fn scan_reports_the_first_of_two_bad_entries() {
    let entries = vec![file("event1x"), file("event2"), file("eventY")];
    match scan_entries(&entries) {
        Err(Error::InvalidIndex(name)) => assert_eq!(name, "event1x"),
        other => panic!("expected InvalidIndex, got {:?}", other),
    }
}

#[test]
fn scan_skips_directories_and_other_names() {
    let entries = vec![
        file("event3"),
        dir("by-id"),
        dir("event9"),
        file("mouse0"),
        file("mice"),
        file("event"),
        file("Event4"),
        file("event12"),
    ];
    assert_eq!(scan_entries(&entries).unwrap(), vec![3, 12]);
}

#[test]
fn scan_of_nothing_is_empty() {
    assert_eq!(scan_entries(&Vec::new()).unwrap(), Vec::<usize>::new());
}

#[test]
fn same_entries_in_another_order_give_the_same_indices() {
    let a = vec![file("event0"), file("mouse1"), file("event5"), file("event2")];
    let b = vec![file("event2"), file("event0"), file("event5"), file("mouse1")];
    let mut ra = scan_entries(&a).unwrap();
    let mut rb = scan_entries(&b).unwrap();
    ra.sort();
    rb.sort();
    assert_eq!(ra, rb);
    assert_eq!(ra, vec![0, 2, 5]);
}

#[test]
fn entry_index_cases() {
    assert_eq!(entry_index(&file("event42")).unwrap(), Some(42));
    assert_eq!(entry_index(&file("event007")).unwrap(), Some(7));
    assert_eq!(entry_index(&file("js0")).unwrap(), None);
    assert_eq!(entry_index(&dir("event1")).unwrap(), None);
    assert_eq!(entry_index(&file("event")).unwrap(), None);
    assert!(matches!(entry_index(&file("event-1")), Err(Error::InvalidIndex(_))));
    assert!(matches!(entry_index(&file("event+1")), Err(Error::InvalidIndex(_))));
}

#[test]
fn parse_index_cases() {
    assert_eq!(parse_index("0"), Some(0));
    assert_eq!(parse_index("1234"), Some(1234));
    assert_eq!(parse_index(""), None);
    assert_eq!(parse_index("12a"), None);
    assert_eq!(parse_index(" 1"), None);
    assert_eq!(parse_index("١"), None);
    let max = usize::MAX.to_string();
    assert_eq!(parse_index(&max), Some(usize::MAX));
    let over = format!("{}0", usize::MAX);
    assert_eq!(parse_index(&over), None);
    assert_eq!(parse_index("99999999999999999999999999"), None);
}

#[test]
fn too_large_index_is_invalid() {
    let entries = vec![file("event99999999999999999999999999")];
    assert!(matches!(scan_entries(&entries), Err(Error::InvalidIndex(_))));
}

#[test]
fn select_device_cases() {
    assert_eq!(select_device('0', 3), Some(0));
    assert_eq!(select_device('2', 3), Some(2));
    assert_eq!(select_device('3', 3), None);
    assert_eq!(select_device('9', 10), Some(9));
    assert_eq!(select_device('0', 0), None);
    assert_eq!(select_device('a', 5), None);
    assert_eq!(select_device(' ', 5), None);
}
