//! The sidecar's outbound JSON lines: responses, events, and the result
//! objects of each recognised method, every one rendered exactly as its
//! contract states.
//!
//! A response carries `id`, `ok`, and `result` or `error`; an event carries
//! `event` and `params`. Object keys appear in the fixed orders given here;
//! embedded strings are escaped, numbers rendered in decimal.

use vstd::prelude::*;
use vstd::string::StringExecFns;

verus! {

use crate::engine::CaptureOutcome;
use crate::engine::reason_str;
use crate::frame_queue::FrameQueue;
use crate::frame_queue::push_model;
use crate::json::append_dec_u64;
use crate::json::append_json_string;
use crate::json::json_string;
use crate::outside::base64_encode;
use crate::outside::base64_of;
use crate::parse::dec_of;
use crate::parse::u128_to_dec;
use crate::session::CaptureMode;
use crate::session::mode_str;
use crate::targets::AudioTarget;

/// A successful response line.
pub open spec fn spec_response_ok_line(id: Seq<char>, result: Seq<char>) -> Seq<char> {
    "{\"id\":"@ + json_string(id) + ",\"ok\":true,\"result\":"@ + result + "}"@
}

/// A failed response line.
pub open spec fn spec_response_err_line(id: Seq<char>, message: Seq<char>) -> Seq<char> {
    "{\"id\":"@ + json_string(id) + ",\"ok\":false,\"error\":{\"message\":"@ + json_string(message)
        + "}}"@
}

/// Renders a successful response around an already-rendered result object.
pub fn response_ok_line(id: &str, result: &str) -> (r: String)
    ensures
        r@ == spec_response_ok_line(id@, result@),
{
    let mut out = String::from_str("{\"id\":");
    append_json_string(&mut out, id);
    out.append(",\"ok\":true,\"result\":");
    out.append(result);
    out.append("}");
    proof {
        assert(out@ =~= spec_response_ok_line(id@, result@));
    }
    out
}

/// Renders a failed response around its error message.
pub fn response_err_line(id: &str, message: &str) -> (r: String)
    ensures
        r@ == spec_response_err_line(id@, message@),
{
    let mut out = String::from_str("{\"id\":");
    append_json_string(&mut out, id);
    out.append(",\"ok\":false,\"error\":{\"message\":");
    append_json_string(&mut out, message);
    out.append("}}");
    proof {
        assert(out@ =~= spec_response_err_line(id@, message@));
    }
    out
}

/// The text-path frame event: one frame, base64-encoded.
pub open spec fn spec_frame_event_line(
    session_id: Seq<char>,
    target_id: Seq<char>,
    sequence: u64,
    pcm_b64: Seq<char>,
) -> Seq<char> {
    "{\"event\":\"audio_capture.frame\",\"params\":{\"channels\":1,\"encoding\":\"f32le_base64\",\"frameCount\":960,\"pcmBase64\":"@
        + json_string(pcm_b64) + ",\"protocolVersion\":1,\"sampleRate\":48000,\"sequence\":"@
        + dec_of(sequence as nat) + ",\"sessionId\":"@ + json_string(session_id) + ",\"targetId\":"@
        + json_string(target_id) + "}}"@
}

/// Renders the `audio_capture.frame` event for one frame's PCM bytes. The
/// canonical parameters — one channel, 48 kHz, 960 samples — are part of
/// the rendered line itself.
pub fn frame_event_line(session_id: &str, target_id: &str, sequence: u64, pcm: &Vec<u8>) -> (r:
    String)
    requires
        4 * ((pcm@.len() + 2) / 3) <= usize::MAX,
    ensures
        r@ == spec_frame_event_line(session_id@, target_id@, sequence, base64_of(pcm@)),
{
    let b64 = base64_encode(pcm);
    let mut out = String::from_str(
        "{\"event\":\"audio_capture.frame\",\"params\":{\"channels\":1,\"encoding\":\"f32le_base64\",\"frameCount\":960,\"pcmBase64\":",
    );
    append_json_string(&mut out, b64.as_str());
    out.append(",\"protocolVersion\":1,\"sampleRate\":48000,\"sequence\":");
    append_dec_u64(&mut out, sequence);
    out.append(",\"sessionId\":");
    append_json_string(&mut out, session_id);
    out.append(",\"targetId\":");
    append_json_string(&mut out, target_id);
    out.append("}}");
    proof {
        assert(out@ =~= spec_frame_event_line(session_id@, target_id@, sequence, base64_of(pcm@)));
    }
    out
}

/// Builds the `audio_capture.frame` event for one frame and pushes it onto
/// the frame queue, non-blocking: a full queue loses its oldest line, a
/// closed queue drops the event.
pub fn enqueue_frame_event(
    queue: &mut FrameQueue,
    session_id: &str,
    target_id: &str,
    sequence: u64,
    pcm: &Vec<u8>,
)
    requires
        4 * ((pcm@.len() + 2) / 3) <= usize::MAX,
    ensures
        final(queue).is_closed() == old(queue).is_closed(),
        final(queue).cap() == old(queue).cap(),
        old(queue).is_closed() ==> final(queue).queue() == old(queue).queue(),
        !old(queue).is_closed() ==> {
            let q = final(queue).queue();
            q.len() > 0 && q.last()@ == spec_frame_event_line(
                session_id@,
                target_id@,
                sequence,
                base64_of(pcm@),
            ) && q == push_model(old(queue).queue(), old(queue).cap(), q.last())
        },
{
    let line = frame_event_line(session_id, target_id, sequence, pcm);
    queue.push_line(line);
}

/// The end-of-session event: the `error` field appears exactly when the
/// outcome carries a diagnostic.
pub open spec fn spec_ended_event_line(
    session_id: Seq<char>,
    target_id: Seq<char>,
    reason: crate::engine::CaptureEndReason,
    error: Option<Seq<char>>,
) -> Seq<char> {
    "{\"event\":\"audio_capture.ended\",\"params\":"@ + (match error {
        Some(e) => "{\"error\":"@ + json_string(e) + ","@,
        None => "{"@,
    }) + "\"protocolVersion\":1,\"reason\":"@ + json_string(reason_str(reason)) + ",\"sessionId\":"@
        + json_string(session_id) + ",\"targetId\":"@ + json_string(target_id) + "}}"@
}

/// Renders the one `audio_capture.ended` event a session terminates with.
pub fn ended_event_line(session_id: &str, target_id: &str, outcome: &CaptureOutcome) -> (r: String)
    ensures
        r@ == spec_ended_event_line(
            session_id@,
            target_id@,
            outcome.reason,
            match outcome.error {
                Some(e) => Some(e@),
                None => None,
            },
        ),
{
    let mut out = String::from_str("{\"event\":\"audio_capture.ended\",\"params\":");
    match &outcome.error {
        Some(e) => {
            out.append("{\"error\":");
            append_json_string(&mut out, e.as_str());
            out.append(",");
        },
        None => {
            out.append("{");
        },
    }
    out.append("\"protocolVersion\":1,\"reason\":");
    append_json_string(&mut out, outcome.reason.as_str());
    out.append(",\"sessionId\":");
    append_json_string(&mut out, session_id);
    out.append(",\"targetId\":");
    append_json_string(&mut out, target_id);
    out.append("}}");
    proof {
        assert(out@ =~= spec_ended_event_line(
            session_id@,
            target_id@,
            outcome.reason,
            match outcome.error {
                Some(e) => Some(e@),
                None => None,
            },
        ));
    }
    out
}

/// The `health.ping` result.
pub open spec fn spec_health_ping_result(now_ms: nat) -> Seq<char> {
    "{\"protocolVersion\":1,\"status\":\"ok\",\"timestampMs\":"@ + dec_of(now_ms) + "}"@
}

/// Renders the `health.ping` result for the given clock reading.
pub fn health_ping_result(now_ms: u128) -> (r: String)
    ensures
        r@ == spec_health_ping_result(now_ms as nat),
{
    let mut out = String::from_str("{\"protocolVersion\":1,\"status\":\"ok\",\"timestampMs\":");
    out.append(u128_to_dec(now_ms).as_str());
    out.append("}");
    proof {
        assert(out@ =~= spec_health_ping_result(now_ms as nat));
    }
    out
}

/// The `capabilities.get` result.
pub open spec fn spec_capabilities_result(platform: Seq<char>, per_app_supported: bool) -> Seq<
    char,
> {
    "{\"encoding\":\"f32le_base64\",\"perAppAudio\":"@ + (if per_app_supported {
        "\"supported\""@
    } else {
        "\"unsupported\""@
    }) + ",\"platform\":"@ + json_string(platform) + ",\"protocolVersion\":1}"@
}

/// Renders the `capabilities.get` result for this platform.
pub fn capabilities_result(platform: &str, per_app_supported: bool) -> (r: String)
    ensures
        r@ == spec_capabilities_result(platform@, per_app_supported),
{
    let mut out = String::from_str("{\"encoding\":\"f32le_base64\",\"perAppAudio\":");
    if per_app_supported {
        out.append("\"supported\"");
    } else {
        out.append("\"unsupported\"");
    }
    out.append(",\"platform\":");
    append_json_string(&mut out, platform);
    out.append(",\"protocolVersion\":1}");
    proof {
        assert(out@ =~= spec_capabilities_result(platform@, per_app_supported));
    }
    out
}

/// The `audio_capture.binary_egress_info` result.
pub open spec fn spec_egress_info_result(port: u16) -> Seq<char> {
    "{\"framing\":\"length_prefixed_f32le_v1\",\"port\":"@ + dec_of(port as nat)
        + ",\"protocolVersion\":1}"@
}

/// Renders the binary egress descriptor for the bound port.
pub fn egress_info_result(port: u16) -> (r: String)
    ensures
        r@ == spec_egress_info_result(port),
{
    let mut out = String::from_str("{\"framing\":\"length_prefixed_f32le_v1\",\"port\":");
    append_dec_u64(&mut out, port as u64);
    out.append(",\"protocolVersion\":1}");
    proof {
        assert(out@ =~= spec_egress_info_result(port));
    }
    out
}

/// The `windows.resolve_source` result: the resolved process, or null.
pub open spec fn spec_resolve_source_result(source_id: Seq<char>, pid: Option<u32>) -> Seq<char> {
    "{\"pid\":"@ + (match pid {
        Some(p) => dec_of(p as nat),
        None => "null"@,
    }) + ",\"sourceId\":"@ + json_string(source_id) + "}"@
}

/// Renders the `windows.resolve_source` result.
pub fn resolve_source_result(source_id: &str, pid: Option<u32>) -> (r: String)
    ensures
        r@ == spec_resolve_source_result(source_id@, pid),
{
    let mut out = String::from_str("{\"pid\":");
    match pid {
        Some(p) => append_dec_u64(&mut out, p as u64),
        None => out.append("null"),
    }
    out.append(",\"sourceId\":");
    append_json_string(&mut out, source_id);
    out.append("}");
    proof {
        assert(out@ =~= spec_resolve_source_result(source_id@, pid));
    }
    out
}

/// The `audio_capture.stop` result, always the same object.
pub open spec fn spec_stop_result() -> Seq<char> {
    "{\"protocolVersion\":1,\"stopped\":true}"@
}

/// Renders the `audio_capture.stop` result.
pub fn stop_result() -> (r: String)
    ensures
        r@ == spec_stop_result(),
{
    String::from_str("{\"protocolVersion\":1,\"stopped\":true}")
}

/// The start descriptor returned by a successful `audio_capture.start`.
pub open spec fn spec_start_result(
    session_id: Seq<char>,
    target_id: Seq<char>,
    mode: CaptureMode,
) -> Seq<char> {
    "{\"channels\":1,\"encoding\":\"f32le_base64\",\"framesPerBuffer\":960,\"mode\":"@
        + json_string(mode_str(mode)) + ",\"protocolVersion\":1,\"sampleRate\":48000,\"sessionId\":"@
        + json_string(session_id) + ",\"targetId\":"@ + json_string(target_id) + "}"@
}

/// Renders the start descriptor: session, target, mode, and the canonical
/// audio parameters.
pub fn start_result(session_id: &str, target_id: &str, mode: CaptureMode) -> (r: String)
    ensures
        r@ == spec_start_result(session_id@, target_id@, mode),
{
    let mut out = String::from_str(
        "{\"channels\":1,\"encoding\":\"f32le_base64\",\"framesPerBuffer\":960,\"mode\":",
    );
    append_json_string(&mut out, mode.as_str());
    out.append(",\"protocolVersion\":1,\"sampleRate\":48000,\"sessionId\":");
    append_json_string(&mut out, session_id);
    out.append(",\"targetId\":");
    append_json_string(&mut out, target_id);
    out.append("}");
    proof {
        assert(out@ =~= spec_start_result(session_id@, target_id@, mode));
    }
    out
}

/// One enumerated target as a JSON object.
pub open spec fn spec_target_json(t: AudioTarget) -> Seq<char> {
    "{\"id\":"@ + json_string(t.id@) + ",\"label\":"@ + json_string(t.label@) + ",\"pid\":"@
        + dec_of(t.pid as nat) + ",\"processName\":"@ + json_string(t.process_name@) + "}"@
}

/// The members of the `targets` array, comma-separated.
pub open spec fn spec_targets_json_items(ts: Seq<AudioTarget>) -> Seq<char>
    decreases ts.len(),
{
    if ts.len() == 0 {
        Seq::empty()
    } else if ts.len() == 1 {
        spec_target_json(ts[0])
    } else {
        spec_targets_json_items(ts.drop_last()) + ","@ + spec_target_json(ts.last())
    }
}

/// The `audio_targets.list` result.
pub open spec fn spec_targets_list_result(
    targets: Seq<AudioTarget>,
    suggested_target_id: Option<Seq<char>>,
) -> Seq<char> {
    "{\"protocolVersion\":1,\"suggestedTargetId\":"@ + (match suggested_target_id {
        Some(s) => json_string(s),
        None => "null"@,
    }) + ",\"targets\":["@ + spec_targets_json_items(targets) + "]}"@
}

/// Renders the `audio_targets.list` result: every enumerated target, and
/// the suggestion resolved from the request's source, or null.
pub fn targets_list_result(targets: &Vec<AudioTarget>, suggested_target_id: Option<&String>) -> (r:
    String)
    ensures
        r@ == spec_targets_list_result(
            targets@,
            match suggested_target_id {
                Some(s) => Some(s@),
                None => None,
            },
        ),
{
    let mut out = String::from_str("{\"protocolVersion\":1,\"suggestedTargetId\":");
    match suggested_target_id {
        Some(s) => append_json_string(&mut out, s.as_str()),
        None => out.append("null"),
    }
    out.append(",\"targets\":[");
    let ghost base = out@;
    let mut i: usize = 0;
    while i < targets.len()
        invariant
            i <= targets@.len(),
            out@ == base + spec_targets_json_items(targets@.take(i as int)),
        decreases targets@.len() - i,
    {
        if i > 0 {
            out.append(",");
        }
        let t = &targets[i];
        out.append("{\"id\":");
        append_json_string(&mut out, t.id.as_str());
        out.append(",\"label\":");
        append_json_string(&mut out, t.label.as_str());
        out.append(",\"pid\":");
        append_dec_u64(&mut out, t.pid as u64);
        out.append(",\"processName\":");
        append_json_string(&mut out, t.process_name.as_str());
        out.append("}");
        proof {
            assert(targets@.take(i + 1).drop_last() =~= targets@.take(i as int));
            assert(targets@.take(i + 1).last() == targets@[i as int]);
            assert(out@ =~= base + spec_targets_json_items(targets@.take(i + 1)));
        }
        i = i + 1;
    }
    proof {
        assert(targets@.take(targets@.len() as int) =~= targets@);
    }
    out.append("]}");
    proof {
        assert(out@ =~= spec_targets_list_result(
            targets@,
            match suggested_target_id {
                Some(s) => Some(s@),
                None => None,
            },
        ));
    }
    out
}

} // verus!
