//! Binary egress framing: `length_prefixed_f32le_v1`.
//!
//! One frame on the binary channel is a little-endian `u32` payload length
//! followed by the payload: both identifier strings with `u16` length
//! prefixes, the sequence number, the audio parameters, the protocol
//! version, a dropped-frame counter (always zero in this revision), and the
//! raw PCM bytes behind their own `u32` length. Encoding validates its
//! inputs and refuses anything the framing cannot carry; a refusal writes
//! nothing.

use vstd::prelude::*;
use vstd::string::StringSliceAdditionalSpecFns;

verus! {

use vstd::bytes::spec_u16_to_le_bytes;
use vstd::bytes::spec_u32_to_le_bytes;
use vstd::bytes::spec_u64_to_le_bytes;
use vstd::bytes::u16_to_le_bytes;
use vstd::bytes::u32_to_le_bytes;
use vstd::bytes::u64_to_le_bytes;
use crate::MAX_APP_AUDIO_BINARY_FRAME_BYTES;

/// Bytes of the payload besides the two identifier strings and the PCM
/// bytes themselves: two `u16` length prefixes, the `u64` sequence, the
/// `u16` channel count, and five `u32` fields.
pub open spec fn binary_frame_overhead() -> nat {
    34
}

/// The payload the framing carries for one frame.
pub open spec fn spec_binary_frame_payload(
    session_id: Seq<u8>,
    target_id: Seq<u8>,
    sequence: u64,
    sample_rate: u32,
    channels: u16,
    frame_count: u32,
    protocol_version: u32,
    pcm: Seq<u8>,
) -> Seq<u8> {
    spec_u16_to_le_bytes(session_id.len() as u16) + session_id + spec_u16_to_le_bytes(
        target_id.len() as u16,
    ) + target_id + spec_u64_to_le_bytes(sequence) + spec_u32_to_le_bytes(sample_rate)
        + spec_u16_to_le_bytes(channels) + spec_u32_to_le_bytes(frame_count) + spec_u32_to_le_bytes(
        protocol_version,
    ) + spec_u32_to_le_bytes(0u32) + spec_u32_to_le_bytes(pcm.len() as u32) + pcm
}

/// What the framing accepts: non-empty identifiers that fit their `u16`
/// length prefixes, non-zero audio parameters, non-empty PCM, and a total
/// payload of at most 4 MiB.
pub open spec fn spec_binary_frame_ok(
    session_id: Seq<u8>,
    target_id: Seq<u8>,
    sample_rate: u32,
    channels: u16,
    frame_count: u32,
    pcm: Seq<u8>,
) -> bool {
    &&& 0 < session_id.len() <= u16::MAX
    &&& 0 < target_id.len() <= u16::MAX
    &&& sample_rate != 0
    &&& channels != 0
    &&& frame_count != 0
    &&& pcm.len() != 0
    &&& binary_frame_overhead() + session_id.len() + target_id.len() + pcm.len()
        <= MAX_APP_AUDIO_BINARY_FRAME_BYTES
}

/// Encodes one frame for the binary channel: the `u32` payload length, then
/// the payload. Returns nothing — and the caller writes nothing — when the
/// inputs are not a valid frame: empty or oversized identifiers, zero audio
/// parameters, empty PCM, or a payload over 4 MiB.
pub fn encode_binary_frame(
    session_id: &str,
    target_id: &str,
    sequence: u64,
    sample_rate: u32,
    channels: u16,
    frame_count: u32,
    protocol_version: u32,
    pcm: &Vec<u8>,
) -> (r: Option<Vec<u8>>)
    ensures
        ({
            let sid = session_id.spec_bytes();
            let tid = target_id.spec_bytes();
            if spec_binary_frame_ok(sid, tid, sample_rate, channels, frame_count, pcm@) {
                let payload = spec_binary_frame_payload(
                    sid,
                    tid,
                    sequence,
                    sample_rate,
                    channels,
                    frame_count,
                    protocol_version,
                    pcm@,
                );
                r matches Some(packet) && packet@ == spec_u32_to_le_bytes(
                    payload.len() as u32,
                ) + payload
            } else {
                r is None
            }
        }),
{
    let sid = session_id.as_bytes();
    let tid = target_id.as_bytes();
    if sid.len() == 0 || sid.len() > 65535 {
        return None;
    }
    if tid.len() == 0 || tid.len() > 65535 {
        return None;
    }
    if sample_rate == 0 || channels == 0 || frame_count == 0 {
        return None;
    }
    if pcm.len() == 0 {
        return None;
    }
    let max: usize = 4194304;
    proof {
        assert(MAX_APP_AUDIO_BINARY_FRAME_BYTES == 4194304);
    }
    if pcm.len() > max {
        return None;
    }
    let payload_len: usize = 34 + sid.len() + tid.len() + pcm.len();
    if payload_len > max {
        return None;
    }
    let mut packet: Vec<u8> = Vec::new();
    let mut piece = u32_to_le_bytes(payload_len as u32);
    packet.append(&mut piece);
    let mut piece = u16_to_le_bytes(sid.len() as u16);
    packet.append(&mut piece);
    packet.extend_from_slice(sid);
    let mut piece = u16_to_le_bytes(tid.len() as u16);
    packet.append(&mut piece);
    packet.extend_from_slice(tid);
    let mut piece = u64_to_le_bytes(sequence);
    packet.append(&mut piece);
    let mut piece = u32_to_le_bytes(sample_rate);
    packet.append(&mut piece);
    let mut piece = u16_to_le_bytes(channels);
    packet.append(&mut piece);
    let mut piece = u32_to_le_bytes(frame_count);
    packet.append(&mut piece);
    let mut piece = u32_to_le_bytes(protocol_version);
    packet.append(&mut piece);
    let mut piece = u32_to_le_bytes(0u32);
    packet.append(&mut piece);
    let mut piece = u32_to_le_bytes(pcm.len() as u32);
    packet.append(&mut piece);
    packet.extend_from_slice(pcm.as_slice());
    proof {
        vstd::bytes::lemma_auto_spec_u16_to_from_le_bytes();
        vstd::bytes::lemma_auto_spec_u32_to_from_le_bytes();
        vstd::bytes::lemma_auto_spec_u64_to_from_le_bytes();
        let sid_s = session_id.spec_bytes();
        let tid_s = target_id.spec_bytes();
        let payload = spec_binary_frame_payload(
            sid_s,
            tid_s,
            sequence,
            sample_rate,
            channels,
            frame_count,
            protocol_version,
            pcm@,
        );
        assert(payload.len() == payload_len);
        assert(packet@ =~= spec_u32_to_le_bytes(payload.len() as u32) + payload);
    }
    Some(packet)
}

} // verus!
