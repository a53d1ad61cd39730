//! Trusted boundary to the outside crates the library computes with.
//!
//! Each item here wraps one outside call and states only what that call's
//! source or documentation shows. Everything proved about the library rests
//! on these contracts.

use base64::Engine;
use vstd::prelude::*;

verus! {

/// The standard padded base64 rendering of a byte sequence. Named rather
/// than spelled out: the encoding is a function of the input bytes alone.
pub uninterp spec fn base64_of(bytes: Seq<u8>) -> Seq<char>;

/// Relies on base64's `STANDARD` engine (RFC 4648 alphabet, padded): the
/// output is four characters for every started group of three input bytes
/// and depends on the input bytes alone.
#[verifier::external_body]
pub fn base64_encode(bytes: &Vec<u8>) -> (r: String)
    requires
        4 * ((bytes@.len() + 2) / 3) <= usize::MAX,
    ensures
        r@ == base64_of(bytes@),
        r@.len() == 4 * ((bytes@.len() + 2) / 3),
{
    base64::engine::general_purpose::STANDARD.encode(bytes.as_slice())
}

/// Relies on uuid's `Uuid::new_v4` and its `Display` impl: a fresh random
/// identifier in the hyphenated format, which is always 36 characters.
/// Nothing else can be promised of a random value.
#[verifier::external_body]
pub fn new_session_id() -> (r: String)
    ensures
        r@.len() == 36,
{
    uuid::Uuid::new_v4().to_string()
}

/// A moment read from the system clock, opaque to the library.
#[verifier::external_type_specification]
#[verifier::external_body]
pub struct ExSystemTime(std::time::SystemTime);

/// Relies on std's `SystemTime::now`: the current system time. Nothing can
/// be promised of a clock reading.
#[verifier::external_body]
pub fn system_time_now() -> std::time::SystemTime {
    std::time::SystemTime::now()
}

/// Relies on std's `SystemTime::duration_since` measured from `UNIX_EPOCH`,
/// converted to whole milliseconds; zero when the clock reads before the
/// epoch. Nothing can be promised of a clock reading.
#[verifier::external_body]
pub fn millis_since_unix_epoch(t: &std::time::SystemTime) -> u128 {
    t.duration_since(std::time::UNIX_EPOCH).map(|d| d.as_millis()).unwrap_or(0)
}

/// Milliseconds since the Unix epoch, as stamped on `health.ping`
/// responses; zero when the clock reads before the epoch.
pub fn now_unix_ms() -> u128 {
    let t = system_time_now();
    millis_since_unix_epoch(&t)
}

} // verus!
