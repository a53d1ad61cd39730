use capture_sidecar::parse::{
    exclude_target_id_for_pid, parse_target_pid, parse_window_source_id, target_id_for_pid,
    u64_to_dec,
};

#[test]
fn parses_window_source_id() {
    assert_eq!(parse_window_source_id("window:1337:0"), Some(1337));
    assert_eq!(parse_window_source_id("screen:3:0"), None);
    assert_eq!(parse_window_source_id("window:not-a-number:0"), None);
}

#[test]
fn parses_target_pid() {
    assert_eq!(parse_target_pid("pid:4321"), Some(4321));
    assert_eq!(parse_target_pid("pid:abc"), None);
    assert_eq!(parse_target_pid("4321"), None);
}

#[test]
fn window_source_id_edge_forms() {
    assert_eq!(parse_window_source_id("window:42"), Some(42));
    assert_eq!(parse_window_source_id("window:-7:0"), Some(-7));
    assert_eq!(parse_window_source_id("window::0"), None);
    assert_eq!(parse_window_source_id("window"), None);
    assert_eq!(parse_window_source_id(""), None);
    assert_eq!(parse_window_source_id("windows:1:0"), None);
}

#[test]
fn target_pid_bounds() {
    assert_eq!(parse_target_pid("pid:0"), Some(0));
    assert_eq!(parse_target_pid("pid:4294967295"), Some(u32::MAX));
    assert_eq!(parse_target_pid("pid:4294967296"), None);
    assert_eq!(parse_target_pid("pid:+17"), Some(17));
    assert_eq!(parse_target_pid("pid:-17"), None);
    assert_eq!(parse_target_pid("pid:"), None);
}

#[test]
fn formats_round_trip_through_parser() {
    for pid in [0u32, 1, 100, 4321, u32::MAX] {
        let id = target_id_for_pid(pid);
        assert_eq!(parse_target_pid(&id), Some(pid));
    }
    assert_eq!(target_id_for_pid(4321), "pid:4321");
    assert_eq!(exclude_target_id_for_pid(9), "excl:pid:9");
}

#[test]
fn renders_decimal() {
    assert_eq!(u64_to_dec(0), "0");
    assert_eq!(u64_to_dec(960), "960");
    assert_eq!(u64_to_dec(u64::MAX), "18446744073709551615");
}
