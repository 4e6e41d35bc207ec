//! Wall-clock readings, taken through chrono. The values depend on the time
//! of the call, so nothing is assumed about them.

use vstd::prelude::*;

verus! {

/// Relies on chrono's `Utc::now` and `DateTime::timestamp_millis`: the current
/// time as milliseconds since the Unix epoch. The value depends on the clock,
/// so nothing is assumed of it.
#[verifier::external_body]
pub fn now_millis() -> i64 {
    chrono::Utc::now().timestamp_millis()
}

/// Relies on chrono's `Utc::now` and `DateTime::timestamp_micros`: the current
/// time as microseconds since the Unix epoch. The value depends on the clock,
/// so nothing is assumed of it.
#[verifier::external_body]
pub fn now_micros() -> i64 {
    chrono::Utc::now().timestamp_micros()
}

/// Relies on chrono's `Utc::now` and `DateTime::format`: the current time
/// rendered in the FIX sending-time layout (year, month, day, a dash, then
/// hours, minutes, seconds and milliseconds). The value depends on the clock,
/// so nothing is assumed of it.
#[verifier::external_body]
pub fn sending_time_now() -> String {
    chrono::Utc::now().format("%Y%m%d-%H:%M:%S%.3f").to_string()
}

} // verus!
