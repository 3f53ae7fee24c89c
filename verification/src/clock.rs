//! From the instant of a capture to a timestamp.
//!
//! The platform layer stamps each event with wall-clock time. The host gets
//! whole milliseconds since the epoch as a signed 64-bit number. Wall-clock
//! time may step backwards, so nothing here promises that timestamps grow.

use vstd::prelude::*;
use crate::error::ConversionError;

verus! {

/// The instant at which an event was captured, told from the epoch.
#[derive(Clone, Copy, Debug, PartialEq, Eq, Structural)]
pub enum CaptureTime {
    /// At the epoch or after it: whole seconds, and the nanoseconds of the
    /// second that had begun.
    SinceEpoch { secs: u64, nanos: u32 },
    /// Before the epoch.
    BeforeEpoch,
}

/// Whole milliseconds in `secs` seconds and `nanos` nanoseconds; what is left
/// of a millisecond is cut off.
pub open spec fn whole_millis(secs: u64, nanos: u32) -> int {
    secs * 1000 + nanos / 1_000_000
}

/// The low 64 bits of `n`, read as a signed number.
pub open spec fn low_i64(n: int) -> int {
    let low: int = n % 0x1_0000_0000_0000_0000;
    if low < 0x8000_0000_0000_0000 {
        low
    } else {
        low - 0x1_0000_0000_0000_0000
    }
}

impl CaptureTime {
    /// The timestamp of an event captured at this instant.
    pub open spec fn stamp_of(self) -> Result<i64, ConversionError> {
        match self {
            CaptureTime::SinceEpoch { secs, nanos } => Ok(
                low_i64(whole_millis(secs, nanos)) as i64,
            ),
            CaptureTime::BeforeEpoch => Err(ConversionError::TimeBeforeEpoch),
        }
    }

    /// Milliseconds from the epoch to this instant. An instant before the
    /// epoch has none. A count too large for 64 bits keeps its low 64 bits.
    pub fn epoch_millis(self) -> (stamp: Result<i64, ConversionError>)
        ensures
            stamp == self.stamp_of(),
            self matches CaptureTime::SinceEpoch { secs, nanos } ==> (whole_millis(secs, nanos)
                <= i64::MAX ==> (stamp matches Ok(millis) && millis == whole_millis(secs, nanos))),
    {
        match self {
            CaptureTime::SinceEpoch { secs, nanos } => {
                let total: u128 = (secs as u128) * 1000 + ((nanos / 1_000_000) as u128);
                let low: u64 = (total % 0x1_0000_0000_0000_0000u128) as u64;
                if low <= 0x7fff_ffff_ffff_ffffu64 {
                    Ok(low as i64)
                } else {
                    Ok(((low - 0x8000_0000_0000_0000u64) as i64) + i64::MIN)
                }
            },
            CaptureTime::BeforeEpoch => Err(ConversionError::TimeBeforeEpoch),
        }
    }
}

} // verus!
