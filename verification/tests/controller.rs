use capture_sidecar::outside::{new_session_id, now_unix_ms};
use capture_sidecar::session::{
    plan_start, CaptureMode, SessionController, SessionRecord, StartParams,
};
use capture_sidecar::targets::AudioTarget;

#[test]
fn session_ids_are_hyphenated_uuids() {
    let a = new_session_id();
    let b = new_session_id();
    assert_eq!(a.chars().count(), 36);
    assert_eq!(a.chars().filter(|&c| c == '-').count(), 4);
    assert_ne!(a, b);
}

#[test]
fn clock_reads_after_the_epoch() {
    assert!(now_unix_ms() > 0);
}

fn empty_params() -> StartParams {
    StartParams { source_id: None, app_audio_target_id: None, exclude_pid: None }
}

fn one_target(pid: u32) -> Vec<AudioTarget> {
    vec![AudioTarget {
        id: format!("pid:{pid}"),
        label: format!("Window - app.exe ({pid})"),
        pid,
        process_name: "app.exe".into(),
    }]
}

#[test]
fn start_without_engine_is_refused() {
    let err = plan_start(false, empty_params(), None, &Vec::new()).unwrap_err();
    assert!(err.starts_with("Per-app audio capture is only available on Windows."));
}

#[test]
fn start_without_target_is_refused() {
    let err = plan_start(true, empty_params(), None, &Vec::new()).unwrap_err();
    assert_eq!(err, "No app audio target provided and source mapping failed");
}

#[test]
fn start_with_invalid_target_id_is_refused() {
    let params = StartParams {
        app_audio_target_id: Some("notpid".into()),
        ..empty_params()
    };
    let err = plan_start(true, params, None, &one_target(4321)).unwrap_err();
    assert_eq!(err, "Invalid app audio target id");
}

#[test]
fn start_with_absent_target_is_refused() {
    let params = StartParams {
        app_audio_target_id: Some("pid:4321".into()),
        ..empty_params()
    };
    let err = plan_start(true, params, None, &one_target(100)).unwrap_err();
    assert_eq!(err, "Target process with pid 4321 is not available");
}

#[test]
fn start_with_live_target_is_planned() {
    let params = StartParams {
        app_audio_target_id: Some("pid:4321".into()),
        ..empty_params()
    };
    let plan = plan_start(true, params, None, &one_target(4321)).unwrap();
    assert_eq!(plan.target_id, "pid:4321");
    assert_eq!(plan.target_pid, 4321);
    assert_eq!(plan.mode, CaptureMode::Include);
}

#[test]
fn start_prefers_the_resolved_source_when_no_explicit_target() {
    let plan = plan_start(true, empty_params(), Some(4321), &one_target(4321)).unwrap();
    assert_eq!(plan.target_id, "pid:4321");
    assert_eq!(plan.mode, CaptureMode::Include);
}

#[test]
fn exclude_mode_skips_the_enumeration_check() {
    let params = StartParams { exclude_pid: Some(77), ..empty_params() };
    let plan = plan_start(true, params, None, &Vec::new()).unwrap();
    assert_eq!(plan.target_id, "excl:pid:77");
    assert_eq!(plan.target_pid, 77);
    assert_eq!(plan.mode, CaptureMode::Exclude);
}

fn record(session_id: &str) -> SessionRecord {
    SessionRecord {
        session_id: session_id.into(),
        target_id: "pid:1".into(),
        mode: CaptureMode::Include,
    }
}

#[test]
fn second_start_takes_the_first_session_for_stopping() {
    let mut c = SessionController::new();
    assert!(c.take_for_stop(None).is_none());
    c.install(record("one"));
    // A new start first stops whatever runs, unconditionally.
    let stopped = c.take_for_stop(None).expect("first session must be stopped");
    assert_eq!(stopped.session_id, "one");
    c.install(record("two"));
    let stopped = c.take_for_stop(None).unwrap();
    assert_eq!(stopped.session_id, "two");
}

#[test]
fn stop_with_stale_identifier_is_a_no_op() {
    let mut c = SessionController::new();
    c.install(record("live"));
    let stale = String::from("stale");
    assert!(c.take_for_stop(Some(&stale)).is_none());
    let live = String::from("live");
    let stopped = c.take_for_stop(Some(&live)).expect("matching id stops the session");
    assert_eq!(stopped.session_id, "live");
    assert!(c.take_for_stop(Some(&live)).is_none());
}
