//! Getting and setting the calibration of an axis, as a sequence of decisions.
//!
//! Both operations check the axis index, then ask the device for its bitmask
//! of absolute axes, then transfer the calibration. The library decides; the
//! caller issues each ioctl and hands back what the kernel said. A step that
//! fails ends the operation, so that no later ioctl is issued.

use vstd::prelude::*;
use crate::absinfo::{AbsInfo, InputAbsInfo};
use crate::bitmask::{axis_in_mask, test_axis, AbsBitMask};
use crate::error::Error;
use crate::ioctl::{
    evioc_get_abs, evioc_get_abs_bit, evioc_set_abs, get_abs_bit_code, get_abs_code, set_abs_code,
    IoctlLayout, ABS_MAX,
};

verus! {

/// The error number of the operating system, as nix holds it.
#[verifier::external_type_specification]
#[verifier::external_body]
pub struct ExErrno(nix::errno::Errno);

/// `nix::errno::Errno::result` on an `i32`: the value itself unless it is -1,
/// the sentinel of a failed call, and then the thread's last error number.
#[verifier::external_body]
fn errno_result(value: i32) -> (r: Result<i32, nix::errno::Errno>)
    ensures
        value != -1 ==> r is Ok && r->Ok_0 == value,
        value == -1 ==> r is Err,
{
    nix::errno::Errno::result(value)
}

/// The raw code of an error number of nix: the cast of the enum to `i32`.
#[verifier::external_body]
fn errno_code(errno: nix::errno::Errno) -> i32 {
    errno as i32
}

/// Turns what an ioctl returned into a reply: `value` if the call succeeded,
/// the OS error code of the failure if it returned -1. To be called right
/// after the ioctl, on the same thread.
pub fn ioctl_reply<T>(int_result: i32, value: T) -> (r: Result<T, i32>)
    ensures
        int_result != -1 ==> r == Ok::<T, i32>(value),
        int_result == -1 ==> r is Err,
{
    match errno_result(int_result) {
        Ok(_) => Ok(value),
        Err(errno) => Err(errno_code(errno)),
    }
}

/// What the capability check decides on the kernel's answer to the bitmask
/// query: the OS error if the query failed, `NonAbsAxis` if the bit of
/// `axis_index` is not set, success otherwise.
pub open spec fn checked_axis(axis_index: u16, reply: Result<AbsBitMask, i32>) -> Result<
    (),
    Error,
> {
    match reply {
        Err(code) => Err(Error::OsError(code)),
        Ok(mask) => if axis_in_mask(axis_index, mask@) {
            Ok(())
        } else {
            Err(Error::NonAbsAxis(axis_index))
        },
    }
}

/// Decides on the kernel's answer to the bitmask query for `axis_index`.
pub fn check_valid_axis(axis_index: u16, reply: Result<AbsBitMask, i32>) -> (r: Result<(), Error>)
    requires
        axis_index <= ABS_MAX,
    ensures
        r == checked_axis(axis_index, reply),
{
    match reply {
        Err(code) => Err(Error::OsError(code)),
        Ok(mask) => {
            if test_axis(axis_index, &mask) {
                Ok(())
            } else {
                Err(Error::NonAbsAxis(axis_index))
            }
        },
    }
}

/// A get operation whose axis index is in range and whose axis is not yet
/// known to exist on the device.
pub struct PendingGet {
    axis: u16,
}

/// A get operation whose axis exists on the device.
pub struct ReadyGet {
    axis: u16,
}

/// A set operation whose axis index is in range and whose axis is not yet
/// known to exist on the device.
pub struct PendingSet {
    info: AbsInfo,
}

/// A set operation whose axis exists on the device.
pub struct ReadySet {
    info: AbsInfo,
}

impl AbsInfo {
    /// Begins a get of the calibration of axis `axis_index`. An index above
    /// `ABS_MAX` fails here, before any ioctl.
    pub fn get_absinfo(axis_index: u16) -> (r: Result<PendingGet, Error>)
        ensures
            axis_index > ABS_MAX ==> r == Err::<PendingGet, Error>(Error::UnboundAxis(axis_index)),
            axis_index <= ABS_MAX ==> r is Ok && r->Ok_0.axis_index() == axis_index,
    {
        if axis_index > ABS_MAX {
            return Err(Error::UnboundAxis(axis_index));
        }
        Ok(PendingGet { axis: axis_index })
    }

    /// Begins a set of this calibration. An axis index above `ABS_MAX` fails
    /// here, before any ioctl.
    pub fn set_absinfo(self) -> (r: Result<PendingSet, Error>)
        ensures
            self.axis_index() > ABS_MAX ==> r == Err::<PendingSet, Error>(
                Error::UnboundAxis(self.axis_index()),
            ),
            self.axis_index() <= ABS_MAX ==> r is Ok && r->Ok_0.info() == self,
    {
        let axis: u16 = self.axis();
        if axis > ABS_MAX {
            return Err(Error::UnboundAxis(axis));
        }
        Ok(PendingSet { info: self })
    }
}

impl PendingGet {
    #[verifier::type_invariant]
    spec fn in_range(self) -> bool {
        self.axis <= ABS_MAX
    }

    /// The axis whose calibration is asked for.
    pub closed spec fn axis_index(self) -> u16 {
        self.axis
    }

    /// The axis whose calibration is asked for.
    pub fn axis(&self) -> (r: u16)
        ensures
            r == self.axis_index(),
            r <= ABS_MAX,
    {
        proof {
            use_type_invariant(self);
        }
        self.axis
    }

    /// The code of the ioctl to issue now: the bitmask query.
    pub fn request_code(&self) -> (r: u64)
        ensures
            r == get_abs_bit_code(IoctlLayout::Generic) || r == get_abs_bit_code(
                IoctlLayout::Extended,
            ),
    {
        evioc_get_abs_bit()
    }

    /// Takes the kernel's answer to the bitmask query: the bitmask, or the OS
    /// error code. The get goes on only if the bitmask holds the axis.
    pub fn check_valid_axis(self, reply: Result<AbsBitMask, i32>) -> (r: Result<ReadyGet, Error>)
        ensures
            checked_axis(self.axis_index(), reply) is Ok ==> r is Ok && r->Ok_0.axis_index()
                == self.axis_index(),
            checked_axis(self.axis_index(), reply) is Err ==> r is Err && r->Err_0
                == checked_axis(self.axis_index(), reply)->Err_0,
    {
        let axis: u16 = self.axis();
        match check_valid_axis(axis, reply) {
            Ok(()) => Ok(ReadyGet { axis }),
            Err(e) => Err(e),
        }
    }
}

impl ReadyGet {
    #[verifier::type_invariant]
    spec fn in_range(self) -> bool {
        self.axis <= ABS_MAX
    }

    /// The axis whose calibration is asked for.
    pub closed spec fn axis_index(self) -> u16 {
        self.axis
    }

    /// The axis whose calibration is asked for.
    pub fn axis(&self) -> (r: u16)
        ensures
            r == self.axis_index(),
            r <= ABS_MAX,
    {
        proof {
            use_type_invariant(self);
        }
        self.axis
    }

    /// The code of the ioctl to issue now: get calibration, for this axis.
    pub fn request_code(&self) -> (r: u64)
        ensures
            r == get_abs_code(IoctlLayout::Generic, self.axis_index()) || r == get_abs_code(
                IoctlLayout::Extended,
                self.axis_index(),
            ),
    {
        evioc_get_abs(self.axis)
    }

    /// The buffer to hand to the ioctl: a record of zeroes.
    pub fn buffer(&self) -> (r: InputAbsInfo)
        ensures
            r == (InputAbsInfo { value: 0, minimum: 0, maximum: 0, fuzz: 0, flat: 0, resolution: 0 }),
    {
        InputAbsInfo::zeroed()
    }

    /// Takes the kernel's answer: the filled buffer, or the OS error code.
    pub fn complete(self, reply: Result<InputAbsInfo, i32>) -> (r: Result<AbsInfo, Error>)
        ensures
            match reply {
                Ok(inner) => r is Ok && r->Ok_0.axis_index() == self.axis_index() && r->Ok_0.inner
                    == inner,
                Err(code) => r == Err::<AbsInfo, Error>(Error::OsError(code)),
            },
    {
        match reply {
            Ok(inner) => Ok(AbsInfo::new(self.axis, inner)),
            Err(code) => Err(Error::OsError(code)),
        }
    }
}

impl PendingSet {
    #[verifier::type_invariant]
    spec fn in_range(self) -> bool {
        self.info.axis_index() <= ABS_MAX
    }

    /// The calibration to write.
    pub closed spec fn info(self) -> AbsInfo {
        self.info
    }

    /// The axis whose calibration is written.
    pub fn axis(&self) -> (r: u16)
        ensures
            r == self.info().axis_index(),
            r <= ABS_MAX,
    {
        proof {
            use_type_invariant(self);
        }
        self.info.axis()
    }

    /// The code of the ioctl to issue now: the bitmask query.
    pub fn request_code(&self) -> (r: u64)
        ensures
            r == get_abs_bit_code(IoctlLayout::Generic) || r == get_abs_bit_code(
                IoctlLayout::Extended,
            ),
    {
        evioc_get_abs_bit()
    }

    /// Takes the kernel's answer to the bitmask query: the bitmask, or the OS
    /// error code. The set goes on only if the bitmask holds the axis.
    pub fn check_valid_axis(self, reply: Result<AbsBitMask, i32>) -> (r: Result<ReadySet, Error>)
        ensures
            checked_axis(self.info().axis_index(), reply) is Ok ==> r is Ok && r->Ok_0.info()
                == self.info(),
            checked_axis(self.info().axis_index(), reply) is Err ==> r is Err && r->Err_0
                == checked_axis(self.info().axis_index(), reply)->Err_0,
    {
        let axis: u16 = self.axis();
        match check_valid_axis(axis, reply) {
            Ok(()) => Ok(ReadySet { info: self.info }),
            Err(e) => Err(e),
        }
    }
}

impl ReadySet {
    #[verifier::type_invariant]
    spec fn in_range(self) -> bool {
        self.info.axis_index() <= ABS_MAX
    }

    /// The calibration to write.
    pub closed spec fn info(self) -> AbsInfo {
        self.info
    }

    /// The code of the ioctl to issue now: set calibration, for this axis.
    pub fn request_code(&self) -> (r: u64)
        ensures
            r == set_abs_code(IoctlLayout::Generic, self.info().axis_index()) || r == set_abs_code(
                IoctlLayout::Extended,
                self.info().axis_index(),
            ),
    {
        evioc_set_abs(self.info.axis())
    }

    /// The record to hand to the ioctl: the calibration's fields.
    pub fn payload(&self) -> (r: InputAbsInfo)
        ensures
            r == self.info().inner,
    {
        self.info.inner
    }

    /// Takes the kernel's answer: nothing, or the OS error code.
    pub fn complete(self, reply: Result<(), i32>) -> (r: Result<(), Error>)
        ensures
            r == match reply {
                Ok(()) => Ok::<(), Error>(()),
                Err(code) => Err::<(), Error>(Error::OsError(code)),
            },
    {
        match reply {
            Ok(()) => Ok(()),
            Err(code) => Err(Error::OsError(code)),
        }
    }
}

} // verus!
