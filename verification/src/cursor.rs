//! Cursor normalization: the host's absolute pointer position, mapped onto
//! the capture region as an exact per-axis fraction, with an off-capture
//! sentinel.

use vstd::prelude::*;

use crate::capture::CaptureDevice;

verus! {

/// One normalized cursor coordinate: the exact fraction `num / den` of the
/// capture extent when the pointer is on the region (so a value in [0, 1]),
/// or the sentinel value -1 (as -1/1) meaning "off the capture region, hide
/// the overlay".
#[derive(Clone, Copy, Debug, PartialEq, Eq, Structural)]
pub struct AxisPosition {
    pub num: i64,
    pub den: i64,
}

impl AxisPosition {
    /// Either a fraction in [0, 1] or the off-capture sentinel.
    pub open spec fn wf(self) -> bool {
        self.den >= 1 && ((0 <= self.num <= self.den) || self.is_off())
    }

    /// The off-capture sentinel, the value -1.
    pub open spec fn is_off(self) -> bool {
        self.num == -1 && self.den == 1
    }
}

/// The off-capture sentinel coordinate.
pub open spec fn off_axis() -> AxisPosition {
    AxisPosition { num: -1i64, den: 1i64 }
}

/// Normalization of one axis. The raw coordinate relative to the region
/// origin, divided by the region extent: fractions in [0, 1] pass through
/// exactly, anything outside becomes the sentinel. A zero extent normalizes
/// to 0, never a division by zero.
pub open spec fn spec_normalize_axis(raw: int, origin: int, extent: int) -> AxisPosition {
    if extent == 0 {
        AxisPosition { num: 0i64, den: 1i64 }
    } else if 0 <= raw - origin <= extent {
        AxisPosition { num: (raw - origin) as i64, den: extent as i64 }
    } else {
        off_axis()
    }
}

/// Normalize one coordinate of the raw pointer position against one axis of
/// the capture region.
pub fn normalize_axis(raw: i32, origin: i32, extent: u32) -> (a: AxisPosition)
    ensures
        a == spec_normalize_axis(raw as int, origin as int, extent as int),
        a.wf(),
{
    if extent == 0 {
        AxisPosition { num: 0, den: 1 }
    } else {
        let delta: i64 = raw as i64 - origin as i64;
        if 0 <= delta && delta <= extent as i64 {
            AxisPosition { num: delta, den: extent as i64 }
        } else {
            AxisPosition { num: -1, den: 1 }
        }
    }
}

/// One cursor sample, both axes normalized. Only the most recent sample is
/// ever meaningful: the sampler publishes it to a single-slot mailbox and
/// stale values are overwritten, never replayed.
#[derive(Clone, Copy, Debug, PartialEq, Eq, Structural)]
pub struct CursorPosition {
    pub x: AxisPosition,
    pub y: AxisPosition,
}

impl CursorPosition {
    pub open spec fn wf(self) -> bool {
        self.x.wf() && self.y.wf()
    }
}

/// Normalize a raw absolute pointer position to the capture region of
/// `device`: per axis, the offset from the region origin over the region
/// extent, with anything off the region replaced by the sentinel on that
/// axis.
pub fn normalize_position(device: &CaptureDevice, raw_x: i32, raw_y: i32) -> (c: CursorPosition)
    ensures
        c.x == spec_normalize_axis(raw_x as int, device.x as int, device.width as int),
        c.y == spec_normalize_axis(raw_y as int, device.y as int, device.height as int),
        c.wf(),
{
    CursorPosition {
        x: normalize_axis(raw_x, device.x, device.width),
        y: normalize_axis(raw_y, device.y, device.height),
    }
}

} // verus!
