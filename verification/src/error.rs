//! The failures that the calibration operations report.

use vstd::prelude::*;

verus! {

/// Why a calibration operation failed.
#[derive(Clone, Copy, Debug, PartialEq, Eq, Structural)]
pub enum Error {
    /// The ioctl itself failed; carries the raw OS error code.
    OsError(i32),
    /// The axis index is above `ABS_MAX`.
    UnboundAxis(u16),
    /// The axis index is in range, but the device does not report that axis.
    NonAbsAxis(u16),
    /// The calibrated range is empty or reversed: `maximum <= minimum`.
    InvalidRange,
    /// The range is valid, but the rescaled reading does not fit in 16 bits.
    Unrepresentable,
}

} // verus!
