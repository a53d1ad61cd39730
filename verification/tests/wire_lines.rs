use capture_sidecar::engine::{CaptureEndReason, CaptureOutcome};
use capture_sidecar::events::{
    capabilities_result, egress_info_result, ended_event_line, frame_event_line,
    health_ping_result, resolve_source_result, response_err_line, response_ok_line, start_result,
    stop_result, targets_list_result,
};
use capture_sidecar::session::CaptureMode;
use capture_sidecar::targets::AudioTarget;

#[test]
fn ping_response_has_protocol_and_status() {
    let result = health_ping_result(12345);
    assert_eq!(
        result,
        "{\"protocolVersion\":1,\"status\":\"ok\",\"timestampMs\":12345}"
    );
    let line = response_ok_line("r1", &result);
    assert_eq!(
        line,
        "{\"id\":\"r1\",\"ok\":true,\"result\":{\"protocolVersion\":1,\"status\":\"ok\",\"timestampMs\":12345}}"
    );
}

#[test]
fn capabilities_without_the_engine_report_unsupported() {
    assert_eq!(
        capabilities_result("linux", false),
        "{\"encoding\":\"f32le_base64\",\"perAppAudio\":\"unsupported\",\"platform\":\"linux\",\"protocolVersion\":1}"
    );
    assert_eq!(
        capabilities_result("windows", true),
        "{\"encoding\":\"f32le_base64\",\"perAppAudio\":\"supported\",\"platform\":\"windows\",\"protocolVersion\":1}"
    );
}

#[test]
fn egress_info_names_the_framing() {
    assert_eq!(
        egress_info_result(8080),
        "{\"framing\":\"length_prefixed_f32le_v1\",\"port\":8080,\"protocolVersion\":1}"
    );
}

#[test]
fn stop_and_resolve_results() {
    assert_eq!(stop_result(), "{\"protocolVersion\":1,\"stopped\":true}");
    assert_eq!(
        resolve_source_result("window:1:0", Some(42)),
        "{\"pid\":42,\"sourceId\":\"window:1:0\"}"
    );
    assert_eq!(
        resolve_source_result("screen:1:0", None),
        "{\"pid\":null,\"sourceId\":\"screen:1:0\"}"
    );
}

#[test]
fn frame_event_encodes_the_pcm() {
    // 1.0f32 little-endian is 00 00 80 3f; standard base64 of those four
    // bytes is AACAPw==. A frame event echoing the raw input instead would
    // fail this comparison.
    let pcm = vec![0u8, 0, 128, 63];
    let line = frame_event_line("s1", "pid:7", 3, &pcm);
    assert_eq!(
        line,
        "{\"event\":\"audio_capture.frame\",\"params\":{\"channels\":1,\"encoding\":\"f32le_base64\",\"frameCount\":960,\"pcmBase64\":\"AACAPw==\",\"protocolVersion\":1,\"sampleRate\":48000,\"sequence\":3,\"sessionId\":\"s1\",\"targetId\":\"pid:7\"}}"
    );
}

#[test]
fn ended_event_carries_error_only_for_capture_error() {
    let stopped = CaptureOutcome::from_reason(CaptureEndReason::CaptureStopped);
    assert_eq!(
        ended_event_line("s", "t", &stopped),
        "{\"event\":\"audio_capture.ended\",\"params\":{\"protocolVersion\":1,\"reason\":\"capture_stopped\",\"sessionId\":\"s\",\"targetId\":\"t\"}}"
    );
    let failed = CaptureOutcome::capture_error("boom".into());
    assert_eq!(
        ended_event_line("s", "t", &failed),
        "{\"event\":\"audio_capture.ended\",\"params\":{\"error\":\"boom\",\"protocolVersion\":1,\"reason\":\"capture_error\",\"sessionId\":\"s\",\"targetId\":\"t\"}}"
    );
}

#[test]
fn strings_are_escaped() {
    let line = response_err_line("r\"1", "a\\b\nc");
    assert_eq!(
        line,
        "{\"id\":\"r\\\"1\",\"ok\":false,\"error\":{\"message\":\"a\\\\b\\u000ac\"}}"
    );
}

#[test]
fn start_descriptor_lists_the_canonical_parameters() {
    assert_eq!(
        start_result("sess", "pid:9", CaptureMode::Include),
        "{\"channels\":1,\"encoding\":\"f32le_base64\",\"framesPerBuffer\":960,\"mode\":\"include\",\"protocolVersion\":1,\"sampleRate\":48000,\"sessionId\":\"sess\",\"targetId\":\"pid:9\"}"
    );
    assert_eq!(
        start_result("sess", "excl:pid:9", CaptureMode::Exclude),
        "{\"channels\":1,\"encoding\":\"f32le_base64\",\"framesPerBuffer\":960,\"mode\":\"exclude\",\"protocolVersion\":1,\"sampleRate\":48000,\"sessionId\":\"sess\",\"targetId\":\"excl:pid:9\"}"
    );
}

#[test]
fn targets_list_renders_every_target() {
    let targets = vec![
        AudioTarget {
            id: "pid:100".into(),
            label: "First - a.exe (100)".into(),
            pid: 100,
            process_name: "a.exe".into(),
        },
        AudioTarget {
            id: "pid:200".into(),
            label: "Other - b.exe (200)".into(),
            pid: 200,
            process_name: "b.exe".into(),
        },
    ];
    let suggested = String::from("pid:100");
    assert_eq!(
        targets_list_result(&targets, Some(&suggested)),
        "{\"protocolVersion\":1,\"suggestedTargetId\":\"pid:100\",\"targets\":[{\"id\":\"pid:100\",\"label\":\"First - a.exe (100)\",\"pid\":100,\"processName\":\"a.exe\"},{\"id\":\"pid:200\",\"label\":\"Other - b.exe (200)\",\"pid\":200,\"processName\":\"b.exe\"}]}"
    );
    assert_eq!(
        targets_list_result(&Vec::new(), None),
        "{\"protocolVersion\":1,\"suggestedTargetId\":null,\"targets\":[]}"
    );
}
