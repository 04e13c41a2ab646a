use rzctl::resolver::{
    device_name_fragment, name_contains, namespace_root, Resolver, ResolveOutcome,
    STATUS_BUFFER_TOO_SMALL,
};

/// The status an exhausted directory reports on the zero-length probe
/// (STATUS_NO_MORE_ENTRIES, 0x8000001A as a signed 32-bit value).
const NO_MORE_ENTRIES: i32 = -2147483622i32;

fn drive_entries(r: &mut Resolver, entries: &[&str]) -> bool {
    for e in entries {
        let fetch = r.on_probe(STATUS_BUFFER_TOO_SMALL, 128);
        assert_eq!(fetch, Some(128));
        assert!(r.on_fetch_status(0));
        if r.on_entry(String::from(*e)) {
            return true;
        }
    }
    let fetch = r.on_probe(NO_MORE_ENTRIES, 0);
    assert_eq!(fetch, None);
    false
}

#[test]
fn substring_match_is_case_sensitive() {
    assert!(name_contains("RZCONTROL42", "RZCONTROL"));
    assert!(name_contains("RZCONTROL", "RZCONTROL"));
    assert!(!name_contains("rzcontrol42", "RZCONTROL"));
    assert!(!name_contains("RZCONTRO", "RZCONTROL"));
    assert!(!name_contains("Foo", "ZZZ"));
    assert!(name_contains("xxRZCONTROLxx", "RZCONTROL"));
    // every name contains the empty fragment
    assert!(name_contains("anything", ""));
    assert!(name_contains("", ""));
    assert!(!name_contains("", "a"));
}

#[test]
fn empty_directory_resolves_to_not_found_without_error() {
    let mut r = Resolver::new(String::from("RZCONTROL"));
    // the very first probe reports the directory exhausted: no fetch is
    // requested and the outcome is a plain not-found
    let fetch = r.on_probe(NO_MORE_ENTRIES, 0);
    assert_eq!(fetch, None);
    assert!(matches!(r.outcome, ResolveOutcome::NotFound));
}

#[test]
fn resolve_returns_first_matching_entry() {
    let mut r = Resolver::new(String::from("RZCONTROL"));
    let found = drive_entries(&mut r, &["Foo", "RZCONTROL42", "Bar"]);
    assert!(found);
    match &r.outcome {
        ResolveOutcome::Found(name) => assert_eq!(name, "RZCONTROL42"),
        other => panic!("expected a match, got {:?}", other),
    }
}

#[test]
fn resolve_stops_at_the_first_of_two_matches() {
    let mut r = Resolver::new(String::from("RZCONTROL"));
    let found = drive_entries(&mut r, &["RZCONTROLA", "RZCONTROLB"]);
    assert!(found);
    match &r.outcome {
        ResolveOutcome::Found(name) => assert_eq!(name, "RZCONTROLA"),
        other => panic!("expected a match, got {:?}", other),
    }
}

#[test]
fn resolve_without_match_reports_not_found() {
    let mut r = Resolver::new(String::from("ZZZ"));
    let found = drive_entries(&mut r, &["Foo", "RZCONTROL42", "Bar"]);
    assert!(!found);
    assert!(matches!(r.outcome, ResolveOutcome::NotFound));
}

#[test]
fn fetch_failure_ends_the_enumeration_as_not_found() {
    let mut r = Resolver::new(String::from("RZCONTROL"));
    assert_eq!(r.on_probe(STATUS_BUFFER_TOO_SMALL, 64), Some(64));
    // the sized fetch itself fails
    assert!(!r.on_fetch_status(-1073741823));
    assert!(matches!(r.outcome, ResolveOutcome::NotFound));
}

#[test]
fn concurrent_resolutions_do_not_interfere() {
    // two resolutions over the same namespace, interleaved step by step,
    // each with its own cursor
    let entries = ["Foo", "RZCONTROL42", "Bar"];
    let mut r1 = Resolver::new(String::from("RZCONTROL"));
    let mut r2 = Resolver::new(String::from("Bar"));
    let mut done1 = false;
    let mut done2 = false;
    for e in entries.iter() {
        if !done1 {
            assert_eq!(r1.on_probe(STATUS_BUFFER_TOO_SMALL, 96), Some(96));
            assert!(r1.on_fetch_status(0));
            done1 = r1.on_entry(String::from(*e));
        }
        if !done2 {
            assert_eq!(r2.on_probe(STATUS_BUFFER_TOO_SMALL, 96), Some(96));
            assert!(r2.on_fetch_status(0));
            done2 = r2.on_entry(String::from(*e));
        }
    }
    match &r1.outcome {
        ResolveOutcome::Found(name) => assert_eq!(name, "RZCONTROL42"),
        other => panic!("expected a match, got {:?}", other),
    }
    match &r2.outcome {
        ResolveOutcome::Found(name) => assert_eq!(name, "Bar"),
        other => panic!("expected a match, got {:?}", other),
    }
}

#[test]
fn well_known_names_are_fixed() {
    assert_eq!(namespace_root(), "\\GLOBAL??");
    assert_eq!(device_name_fragment(), "RZCONTROL");
}
