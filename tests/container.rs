use ears_skin::container::AlfalfaData;
use ears_skin::inspector::{read_entries, write_entries, AlfalfaEntryData};
use ears_skin::region::AlfalfaEraseEntryData;
use ears_skin::error::EarsError;

fn key(s: &str) -> String {
    s.to_string()
}

#[test]
fn new_container_is_empty_with_version_zero() {
    let c = AlfalfaData::new();
    assert!(c.is_empty());
    assert_eq!(c.version(), 0);
}

#[test]
fn emptiness_ignores_version() {
    let c = AlfalfaData::with_version(7);
    assert!(c.is_empty());
    assert_eq!(c.version(), 7);
}

#[test]
fn set_overwrites_and_get_reads_back() {
    let mut c = AlfalfaData::new();
    c.set(key("mymod:extra"), vec![1, 2, 3]);
    c.set(key("other"), vec![9]);
    c.set(key("mymod:extra"), vec![4]);
    assert_eq!(c.get(&key("mymod:extra")), Some(&vec![4]));
    assert_eq!(c.get(&key("other")), Some(&vec![9]));
    assert_eq!(c.get(&key("missing")), None);
    assert_eq!(c.entries().len(), 2);
}

#[test]
fn empty_blob_is_not_absence() {
    let mut c = AlfalfaData::new();
    c.set(key("custom"), vec![]);
    assert_eq!(c.get(&key("custom")), Some(&vec![]));
    assert!(!c.is_empty());
}

#[test]
fn remove_drops_only_that_key() {
    let mut c = AlfalfaData::new();
    c.set(key("a"), vec![1]);
    c.set(key("b"), vec![2]);
    c.remove(&key("a"));
    c.remove(&key("zzz"));
    assert_eq!(c.get(&key("a")), None);
    assert_eq!(c.get(&key("b")), Some(&vec![2]));
}

#[test]
fn raw_entries_later_key_wins() {
    let c = AlfalfaData::new_raw(3, vec![(key("a"), vec![1]), (key("b"), vec![2]), (key("a"), vec![5])]);
    assert_eq!(c.version(), 3);
    assert_eq!(c.get(&key("a")), Some(&vec![5]));
    let (version, mut entries) = c.into_raw();
    entries.sort();
    assert_eq!(version, 3);
    assert_eq!(entries, vec![(key("a"), vec![5]), (key("b"), vec![2])]);
}

#[test]
fn listing_shows_each_kind() {
    let mut c = AlfalfaData::new();
    c.set(key("wing"), vec![10, 11]);
    c.set(key("cape"), vec![12]);
    c.set(key("mymod:extra"), vec![1, 2, 3]);
    c.set(key("erase"), vec![0, 0, 8, 8]);
    let mut listed = read_entries(&c).unwrap();
    listed.sort_by(|a, b| a.0.cmp(&b.0));
    assert_eq!(
        listed,
        vec![
            (key("cape"), AlfalfaEntryData::Image(vec![12])),
            (key("erase"), AlfalfaEntryData::Erase(vec![AlfalfaEraseEntryData { x: 0, y: 0, width: 8, height: 8 }])),
            (key("mymod:extra"), AlfalfaEntryData::Binary(vec![1, 2, 3])),
            (key("wing"), AlfalfaEntryData::Image(vec![10, 11])),
        ]
    );
}

#[test]
fn listing_fails_on_corrupt_erase_blob() {
    let mut c = AlfalfaData::new();
    c.set(key("erase"), vec![0, 0, 8]);
    assert_eq!(read_entries(&c), Err(EarsError::DecodeError));
}

#[test]
fn listing_round_trip_keeps_every_entry() {
    let mut c = AlfalfaData::new();
    c.set(key("wing"), vec![10, 11]);
    c.set(key("mymod:extra"), vec![1, 2, 3]);
    c.set(key("empty"), vec![]);
    c.set(key("erase"), vec![1, 2, 3, 4, 5, 6, 7, 8]);
    let rebuilt = write_entries(read_entries(&c).unwrap()).unwrap();
    for k in ["wing", "mymod:extra", "empty", "erase"] {
        assert_eq!(rebuilt.get(&key(k)), c.get(&key(k)));
    }
    assert_eq!(rebuilt.entries().len(), 4);
}

#[test]
fn rebuild_ignores_mismatched_kinds() {
    let rebuilt = write_entries(vec![
        (key("erase"), AlfalfaEntryData::Binary(vec![1, 2, 3, 4])),
        (key("note"), AlfalfaEntryData::Erase(vec![AlfalfaEraseEntryData { x: 1, y: 1, width: 1, height: 1 }])),
        (key("img"), AlfalfaEntryData::Image(vec![7])),
    ])
    .unwrap();
    assert_eq!(rebuilt.get(&key("erase")), None);
    assert_eq!(rebuilt.get(&key("note")), None);
    assert_eq!(rebuilt.get(&key("img")), Some(&vec![7]));
    assert_eq!(rebuilt.version(), 0);
}

#[test]
fn rebuild_with_empty_erase_list_stores_no_key() {
    let rebuilt = write_entries(vec![(key("erase"), AlfalfaEntryData::Erase(vec![]))]).unwrap();
    assert!(rebuilt.is_empty());
}

#[test]
fn listing_written_then_read_describes_the_same_entries() {
    let listing = vec![
        (key("erase"), AlfalfaEntryData::Erase(vec![AlfalfaEraseEntryData { x: 1, y: 2, width: 3, height: 4 }])),
        (key("wing"), AlfalfaEntryData::Image(vec![5])),
        (key("mymod:extra"), AlfalfaEntryData::Binary(vec![])),
    ];
    let mut back = read_entries(&write_entries(listing.clone()).unwrap()).unwrap();
    back.sort_by(|a, b| a.0.cmp(&b.0));
    let mut expected = listing;
    expected.sort_by(|a, b| a.0.cmp(&b.0));
    assert_eq!(back, expected);
}
