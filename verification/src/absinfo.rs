//! Axis calibration records and their normalisation onto the signed 16-bit range.

use vstd::prelude::*;
use crate::error::Error;

verus! {

/// The number of steps of the signed 16-bit range, `u16::MAX`.
pub const I16_RANGE: i64 = 65535;

/// `value` brought into `[minimum, maximum]`.
pub open spec fn clamped(value: int, minimum: int, maximum: int) -> int {
    if value < minimum {
        minimum
    } else if value > maximum {
        maximum
    } else {
        value
    }
}

/// Division that rounds toward zero, for a positive divisor.
pub open spec fn trunc_div(a: int, b: int) -> int
    recommends
        b > 0,
{
    if a >= 0 {
        a / b
    } else {
        -((-a) / b)
    }
}

/// The rescaled reading, before the deadzone is applied:
/// `clamped * 65535 / range + offset`, with `range = maximum - minimum`,
/// `offset = -32768 - minimum`, and a division that rounds toward zero.
pub open spec fn scaled(value: int, minimum: int, maximum: int) -> int {
    trunc_div(clamped(value, minimum, maximum) * 65535, maximum - minimum) + (-32768 - minimum)
}

/// Whether the rescaled reading fits in a signed 16-bit integer.
pub open spec fn representable(value: int, minimum: int, maximum: int) -> bool {
    -32768 <= scaled(value, minimum, maximum) <= 32767
}

/// Whether `scaled_value` lies in the zero band of `flat`: between the
/// Euclidean halves of `-flat` and of `flat`, both included.
pub open spec fn in_deadzone(scaled_value: int, flat: int) -> bool {
    (-flat) / 2 <= scaled_value <= flat / 2
}

/// A rescaled reading with the deadzone applied.
pub open spec fn flattened(scaled_value: int, flat: int) -> int {
    if in_deadzone(scaled_value, flat) {
        0
    } else {
        scaled_value
    }
}

/// The normalised reading: rescaled, then flattened.
pub open spec fn normalized(value: int, minimum: int, maximum: int, flat: int) -> int {
    flattened(scaled(value, minimum, maximum), flat)
}

/// Replaces a rescaled reading inside the deadzone of `flat` by zero.
pub fn apply_flatness(value: i16, flat: i32) -> (r: i16)
    ensures
        r == flattened(value as int, flat as int),
{
    let wide: i64 = flat as i64;
    let v: i64 = value as i64;
    let upper: i64 = if wide >= 0 { wide / 2 } else { -((1 - wide) / 2) };
    let negated: i64 = -wide;
    let lower: i64 = if negated >= 0 { negated / 2 } else { -((1 - negated) / 2) };
    if v >= lower && v <= upper {
        0
    } else {
        value
    }
}

/// Rescales a reading from `[minimum, maximum]` in 64-bit arithmetic.
fn rescale(value: i32, minimum: i32, maximum: i32) -> (r: i64)
    requires
        maximum > minimum,
    ensures
        r == scaled(value as int, minimum as int, maximum as int),
{
    let low: i32 = if value < minimum { minimum } else { value };
    let bounded: i32 = if low > maximum { maximum } else { low };
    let wide: i64 = bounded as i64;
    let range_size: i64 = maximum as i64 - minimum as i64;
    let translation: i64 = -32768 - minimum as i64;
    let quotient: i64 = if wide >= 0 {
        let product: i64 = wide * I16_RANGE;
        assert(product / range_size <= product) by (nonlinear_arith)
            requires
                product >= 0,
                range_size >= 1,
        ;
        product / range_size
    } else {
        let product: i64 = (-wide) * I16_RANGE;
        assert(product / range_size <= product) by (nonlinear_arith)
            requires
                product >= 0,
                range_size >= 1,
        ;
        -(product / range_size)
    };
    quotient + translation
}

/// Maps a raw reading onto the signed 16-bit range and applies the deadzone.
///
/// A range with `maximum <= minimum` is refused as `InvalidRange`. A reading
/// whose rescaled value leaves the 16-bit range is refused as `Unrepresentable`.
pub fn normalize(value: i32, minimum: i32, maximum: i32, flat: i32) -> (r: Result<i16, Error>)
    ensures
        maximum <= minimum ==> r == Err::<i16, Error>(Error::InvalidRange),
        maximum > minimum && !representable(value as int, minimum as int, maximum as int)
            ==> r == Err::<i16, Error>(Error::Unrepresentable),
        maximum > minimum && representable(value as int, minimum as int, maximum as int) ==> r
            is Ok && r->Ok_0 == normalized(
            value as int,
            minimum as int,
            maximum as int,
            flat as int,
        ),
{
    if maximum <= minimum {
        return Err(Error::InvalidRange);
    }
    let wide: i64 = rescale(value, minimum, maximum);
    if wide < -32768 || wide > 32767 {
        return Err(Error::Unrepresentable);
    }
    Ok(apply_flatness(wide as i16, flat))
}

/// The calibration fields of one axis, as the kernel reports them.
#[derive(Clone, Copy, Debug, PartialEq, Eq, Structural)]
pub struct InputAbsInfo {
    /// The current raw reading.
    pub value: i32,
    /// The lower end of the calibrated range.
    pub minimum: i32,
    /// The upper end of the calibrated range.
    pub maximum: i32,
    /// The noise threshold; carried along, never read.
    pub fuzz: i32,
    /// The width of the deadzone.
    pub flat: i32,
    /// Units per millimetre or per radian; carried along, never read.
    pub resolution: i32,
}

impl InputAbsInfo {
    /// Whether the range is not empty and the rescaled reading fits in 16 bits.
    pub open spec fn can_normalize(self) -> bool {
        self.maximum > self.minimum && representable(
            self.value as int,
            self.minimum as int,
            self.maximum as int,
        )
    }

    /// The normalised reading of a record that `can_normalize`.
    pub open spec fn normalized_value(self) -> int {
        normalized(self.value as int, self.minimum as int, self.maximum as int, self.flat as int)
    }

    /// A record of zeroes: the buffer that a get operation hands to the kernel.
    pub fn zeroed() -> (r: InputAbsInfo)
        ensures
            r == (InputAbsInfo { value: 0, minimum: 0, maximum: 0, fuzz: 0, flat: 0, resolution: 0 }),
    {
        InputAbsInfo { value: 0, minimum: 0, maximum: 0, fuzz: 0, flat: 0, resolution: 0 }
    }

    /// Normalises the record's reading; `normalize` on its fields.
    pub fn normalize(&self) -> (r: Result<i16, Error>)
        ensures
            self.maximum <= self.minimum ==> r == Err::<i16, Error>(Error::InvalidRange),
            self.maximum > self.minimum && !self.can_normalize() ==> r == Err::<i16, Error>(
                Error::Unrepresentable,
            ),
            self.can_normalize() ==> r is Ok && r->Ok_0 == self.normalized_value(),
    {
        normalize(self.value, self.minimum, self.maximum, self.flat)
    }
}

/// The calibration of one absolute axis of one device.
#[derive(Debug, PartialEq, Eq, Structural)]
pub struct AbsInfo {
    /// The index of the axis that this calibration describes.
    pub axis: u16,
    /// The calibration fields.
    pub inner: InputAbsInfo,
}

impl AbsInfo {
    /// The index of the axis that this calibration describes.
    pub open spec fn axis_index(self) -> u16 {
        self.axis
    }

    /// The calibration `inner` of axis `axis`.
    pub fn new(axis: u16, inner: InputAbsInfo) -> (r: AbsInfo)
        ensures
            r.axis_index() == axis,
            r.inner == inner,
    {
        AbsInfo { axis, inner }
    }

    /// The index of the axis that this calibration describes.
    pub fn axis(&self) -> (r: u16)
        ensures
            r == self.axis_index(),
    {
        self.axis
    }

    /// The reading on the signed 16-bit range, with the deadzone applied.
    pub fn get_normalized_value(&self) -> (r: i16)
        requires
            self.inner.can_normalize(),
        ensures
            r == self.inner.normalized_value(),
    {
        let wide: i64 = rescale(self.inner.value, self.inner.minimum, self.inner.maximum);
        apply_flatness(wide as i16, self.inner.flat)
    }
}

/// The calibration of an axis as a joystick reports it.
#[derive(Clone, Copy, Debug, PartialEq, Eq, Structural)]
pub struct JoystickAbsInfo(pub InputAbsInfo);

impl JoystickAbsInfo {
    /// The reading on the signed 16-bit range, with the deadzone applied.
    pub fn normalized_value(&self) -> (r: i16)
        requires
            self.0.can_normalize(),
        ensures
            r == self.0.normalized_value(),
    {
        let wide: i64 = rescale(self.0.value, self.0.minimum, self.0.maximum);
        apply_flatness(wide as i16, self.0.flat)
    }
}

} // verus!
