use capture_sidecar::engine::{
    activation_wait_outcome, init_error_message, initial_liveness_outcome, pump_poll,
    silent_chunk, ActivateAudioInterfaceCallback, CaptureEndReason, CaptureOutcome,
    FrameAssembler, PumpStep,
};

#[test]
fn reasons_use_the_wire_strings() {
    assert_eq!(CaptureEndReason::CaptureStopped.as_str(), "capture_stopped");
    assert_eq!(CaptureEndReason::AppExited.as_str(), "app_exited");
    assert_eq!(CaptureEndReason::CaptureError.as_str(), "capture_error");
    assert_eq!(CaptureEndReason::DeviceLost.as_str(), "device_lost");
}

#[test]
fn only_capture_error_carries_a_diagnostic() {
    let o = CaptureOutcome::from_reason(CaptureEndReason::AppExited);
    assert_eq!(o.reason, CaptureEndReason::AppExited);
    assert!(o.error.is_none());
    let e = CaptureOutcome::capture_error("boom".into());
    assert_eq!(e.reason, CaptureEndReason::CaptureError);
    assert_eq!(e.error.as_deref(), Some("boom"));
}

#[test]
fn stop_ends_the_session_whatever_else_holds() {
    for alive in [None, Some(true), Some(false)] {
        for size in [None, Some(0), Some(7)] {
            assert_eq!(
                pump_poll(true, alive, size),
                PumpStep::End(CaptureEndReason::CaptureStopped)
            );
        }
    }
}

#[test]
fn pump_poll_orders_its_checks() {
    assert_eq!(
        pump_poll(false, Some(false), Some(7)),
        PumpStep::End(CaptureEndReason::AppExited)
    );
    assert_eq!(
        pump_poll(false, Some(true), None),
        PumpStep::End(CaptureEndReason::DeviceLost)
    );
    assert_eq!(pump_poll(false, None, Some(0)), PumpStep::Idle);
    assert_eq!(pump_poll(false, Some(true), Some(480)), PumpStep::Drain);
}

#[test]
fn assembler_frames_are_960_samples_with_contiguous_sequences() {
    let mut a = FrameAssembler::new();
    assert_eq!(a.pending_len(), 0);
    assert!(a.take_frame().is_none());

    // One and a half frames, then another whole one.
    let chunk1 = vec![7u8; 3840 + 1920];
    a.push_chunk(&chunk1);
    let (seq0, frame0) = a.take_frame().expect("one full frame pending");
    assert_eq!(seq0, 0);
    assert_eq!(frame0.len(), 960 * 1 * 4);
    assert!(frame0.iter().all(|&b| b == 7));
    assert!(a.take_frame().is_none());
    assert_eq!(a.pending_len(), 1920);

    let chunk2 = vec![9u8; 1920];
    a.push_chunk(&chunk2);
    let (seq1, frame1) = a.take_frame().expect("second frame pending");
    assert_eq!(seq1, 1);
    assert_eq!(frame1.len(), 3840);
    assert_eq!(&frame1[..1920], &[7u8; 1920][..]);
    assert_eq!(&frame1[1920..], &[9u8; 1920][..]);
    assert!(a.take_frame().is_none());
    assert_eq!(a.pending_len(), 0);
}

#[test]
fn drain_takes_every_full_frame_and_keeps_the_tail() {
    let mut a = FrameAssembler::new();
    let mut bytes: Vec<u8> = Vec::new();
    for i in 0..(3840 * 2 + 100) {
        bytes.push((i % 251) as u8);
    }
    a.push_chunk(&bytes);
    let frames = a.drain_frames();
    assert_eq!(frames.len(), 2);
    assert_eq!(frames[0].0, 0);
    assert_eq!(frames[1].0, 1);
    assert_eq!(frames[0].1[..], bytes[..3840]);
    assert_eq!(frames[1].1[..], bytes[3840..7680]);
    assert_eq!(a.pending_len(), 100);
    assert!(a.drain_frames().is_empty());
}

#[test]
fn silent_chunks_are_zeroed() {
    let c = silent_chunk(480);
    assert_eq!(c.len(), 480 * 4);
    assert!(c.iter().all(|&b| b == 0));
}

#[test]
fn activation_signal_and_timeout() {
    let mut cb = ActivateAudioInterfaceCallback::new();
    cb.activate_completed();
    assert!(activation_wait_outcome(true).is_ok());
    assert_eq!(
        activation_wait_outcome(false).unwrap_err(),
        "ActivateAudioInterfaceAsync timed out"
    );
}

#[test]
fn initialise_diagnostics() {
    assert_eq!(
        init_error_message("E_FAIL", false),
        "Failed to initialize loopback client: E_FAIL"
    );
    assert_eq!(
        init_error_message("E_FLAG", true),
        "Failed to initialize loopback client: E_FLAG (invalid flags for process loopback)"
    );
    let gone = initial_liveness_outcome(false, false).expect("dead target ends at once");
    assert_eq!(gone.reason, CaptureEndReason::AppExited);
    assert!(gone.error.is_none());
    assert!(initial_liveness_outcome(true, false).is_none());
    assert!(initial_liveness_outcome(false, true).is_none());
}
