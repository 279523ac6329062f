//! The bitmask by which a device reports the absolute axes that it has.

use vstd::prelude::*;
use crate::error::Error;
use crate::ioctl::ABS_MAX;

verus! {

/// One bit per axis index, eight axes to a byte, lowest index in the lowest bit.
pub type AbsBitMask = [u8; 8];

/// Whether bit `k` of `byte` is set.
pub open spec fn bit_is_set(byte: u8, k: u8) -> bool {
    (byte >> k) & 1u8 == 1u8
}

/// Whether `bit_array` reports axis `axis_index`: bit `axis_index % 8` of byte
/// `axis_index / 8`.
pub open spec fn axis_in_mask(axis_index: u16, bit_array: Seq<u8>) -> bool {
    bit_is_set(bit_array[axis_index as int / 8], (axis_index % 8) as u8)
}

/// Tests the bit of `axis_index` in `bit_array`.
pub fn test_axis(axis_index: u16, bit_array: &AbsBitMask) -> (r: bool)
    requires
        axis_index <= ABS_MAX,
    ensures
        r == axis_in_mask(axis_index, bit_array@),
{
    let byte: u8 = bit_array[(axis_index / 8) as usize];
    let k: u8 = (axis_index % 8) as u8;
    assert((byte & (1u8 << k) != 0) == ((byte >> k) & 1u8 == 1u8)) by (bit_vector)
        requires
            k < 8,
    ;
    byte & (1u8 << k) != 0
}

/// Whether a device supports axis `axis_index`, from the kernel's answer to
/// the bitmask query: the bitmask, or the OS error code of a failed query.
/// An index above `ABS_MAX` is supported by no device.
pub fn axis_supported(axis_index: u16, reply: Result<AbsBitMask, i32>) -> (r: Result<bool, Error>)
    ensures
        r == match reply {
            Ok(mask) => Ok::<bool, Error>(
                axis_index <= ABS_MAX && axis_in_mask(axis_index, mask@),
            ),
            Err(code) => Err::<bool, Error>(Error::OsError(code)),
        },
{
    match reply {
        Ok(mask) => Ok(axis_index <= ABS_MAX && test_axis(axis_index, &mask)),
        Err(code) => Err(Error::OsError(code)),
    }
}

} // verus!
