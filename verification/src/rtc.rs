//! Plain calendar time, and the battery dialect's clock payload.
//!
//! The gateway receives wall-clock time from the outside (a real-time
//! clock or time synchronization); here it is plain values.

use vstd::prelude::*;

verus! {

/// Epoch seconds of the production-era reference the clock payload
/// counts from.
pub const CLOCK_EPOCH_SECS: i64 = 1524454107;

/// Why a received time could not be used.
#[derive(Clone, Copy, Debug, PartialEq, Eq, Structural)]
pub enum NtpError {
    Parse,
}

/// A wall-clock instant, as plain fields.
#[derive(Clone, Copy, Debug, PartialEq, Eq, Structural)]
pub struct DateTime {
    pub year: u16,
    pub month: u8,
    pub day: u8,
    pub hour: u8,
    pub minute: u8,
    pub second: u8,
}

/// The minutes-since-reference value carried by the clock payload.
pub open spec fn spec_clock_minutes(epoch_secs: i64) -> int {
    (epoch_secs - CLOCK_EPOCH_SECS) / 60
}

/// Encode wall-clock time as the dialect's eight-byte clock payload: a
/// 24-bit minutes-since-reference counter, twice, then a fixed marker.
pub fn convert_rtc_to_payload(epoch_secs: i64) -> (r: [u8; 8])
    requires
        epoch_secs >= CLOCK_EPOCH_SECS,
    ensures
        ({
            let minutes = spec_clock_minutes(epoch_secs);
            &&& r@[0] == ((minutes / 0x10000) % 256) as u8
            &&& r@[1] == ((minutes / 0x100) % 256) as u8
            &&& r@[2] == (minutes % 256) as u8
            &&& r@[3] == r@[0]
            &&& r@[4] == r@[1]
            &&& r@[5] == r@[2]
            &&& r@[6] == 0x4A
            &&& r@[7] == 0x54
        }),
{
    let duration: i64 = epoch_secs - CLOCK_EPOCH_SECS;
    let minutes: i64 = duration / 60;
    let year_seg: u8 = ((minutes / 0x10000) % 256) as u8;
    let hour_seg: u8 = ((minutes / 0x100) % 256) as u8;
    let minutes_seg: u8 = (minutes % 256) as u8;
    [year_seg, hour_seg, minutes_seg, year_seg, hour_seg, minutes_seg, 0x4A, 0x54]
}

} // verus!
