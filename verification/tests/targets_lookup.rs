use capture_sidecar::targets::{
    dedupe_window_entries_by_pid, get_audio_targets, process_name_from_pid, resolve_source_to_pid,
};

#[test]
fn dedupes_by_pid() {
    let d = dedupe_window_entries_by_pid(vec![
        (100, "First".into()),
        (100, "Second".into()),
        (200, "Other".into()),
    ]);
    assert_eq!(d.get(&100).map(String::as_str), Some("First"));
    assert_eq!(d.get(&200).map(String::as_str), Some("Other"));
}

#[test]
fn dedupe_keeps_one_entry_per_pid() {
    let d = dedupe_window_entries_by_pid(vec![
        (1, "a".into()),
        (2, "b".into()),
        (1, "c".into()),
        (3, "d".into()),
        (2, "e".into()),
    ]);
    assert_eq!(d.len(), 3);
    assert_eq!(d.get(&1).map(String::as_str), Some("a"));
    assert_eq!(d.get(&2).map(String::as_str), Some("b"));
    assert_eq!(d.get(&3).map(String::as_str), Some("d"));
}

#[test]
fn dedupe_of_nothing_is_empty() {
    let d = dedupe_window_entries_by_pid(Vec::new());
    assert!(d.is_empty());
}

#[test]
fn platform_without_engine_has_no_targets() {
    assert!(get_audio_targets().is_empty());
    assert_eq!(resolve_source_to_pid("window:1337:0"), None);
    assert_eq!(process_name_from_pid(1), None);
}
