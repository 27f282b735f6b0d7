use vstd::prelude::*;

verus! {

/// The wire-time epoch, 2000-01-01 00:00:00 UTC, as a Unix timestamp.
pub const WIRE_EPOCH_UNIX_SECONDS: i64 = 946684800;

/// A Unix timestamp as wire time: whole seconds since the wire epoch,
/// saturated into the unsigned 32-bit range.
pub open spec fn spec_wire_time(unix_seconds: i64) -> u32 {
    if unix_seconds <= WIRE_EPOCH_UNIX_SECONDS {
        0u32
    } else if unix_seconds - WIRE_EPOCH_UNIX_SECONDS > u32::MAX {
        u32::MAX
    } else {
        (unix_seconds - WIRE_EPOCH_UNIX_SECONDS) as u32
    }
}

pub fn as_wire_time(unix_seconds: i64) -> (r: u32)
    ensures
        r == spec_wire_time(unix_seconds),
{
    if unix_seconds <= WIRE_EPOCH_UNIX_SECONDS {
        0
    } else if unix_seconds - WIRE_EPOCH_UNIX_SECONDS > u32::MAX as i64 {
        u32::MAX
    } else {
        (unix_seconds - WIRE_EPOCH_UNIX_SECONDS) as u32
    }
}

/// Relies on chrono's `Utc::now`: the current wall-clock moment, as whole
/// Unix seconds. Nothing can be promised of the clock's reading, and the
/// call does not return on a system clock set before 1970.
#[verifier::external_body]
pub fn now_unix_seconds() -> i64 {
    chrono::Utc::now().timestamp()
}

/// The current moment as wire time.
pub fn now_wire_time() -> (r: u32) {
    as_wire_time(now_unix_seconds())
}

} // verus!
