//! Request codes of the input subsystem's calibration ioctls.
//!
//! A request code packs a direction, a payload size, a magic byte and a command
//! number into one integer. The command number takes bits 0 to 7, the magic
//! byte bits 8 to 15, the size follows, and the direction takes the top bits.
//! How many bits the size and the direction take depends on the architecture.

use vstd::prelude::*;

verus! {

/// The magic byte of the input subsystem, the letter `E`.
pub const EVDEV_MAGIC: u8 = 0x45;

/// Command number of "get calibration" for axis 0.
pub const GET_ABS_BASE: u32 = 0x40;

/// Command number of "set calibration" for axis 0.
pub const SET_ABS_BASE: u32 = 0xc0;

/// Command number of "get event bits" for event type 0.
pub const GET_BIT_BASE: u32 = 0x20;

/// The event type of absolute axes.
pub const EV_ABS: u32 = 0x03;

/// The highest index of an absolute axis.
pub const ABS_MAX: u16 = 0x3f;

/// Byte size of the calibration payload: six 32-bit fields.
pub const ABSINFO_SIZE: usize = 24;

/// Byte size of the bitmask of absolute axes: one bit per axis index.
pub const ABS_BITMASK_SIZE: usize = 8;

/// How an architecture lays out the size and direction fields.
#[derive(Clone, Copy, Debug, PartialEq, Eq, Structural)]
pub enum IoctlLayout {
    /// 14 bits of size, 2 bits of direction: no payload is 0, write is 1, read is 2.
    Generic,
    /// 13 bits of size, 3 bits of direction: no payload is 1, read is 2, write is 4.
    /// Used by the PowerPC, SPARC and MIPS families.
    Extended,
}

/// Which way the payload of a request travels.
#[derive(Clone, Copy, Debug, PartialEq, Eq, Structural)]
pub enum Direction {
    Idle,
    Read,
    Write,
}

impl IoctlLayout {
    /// The number that stands for `dir` in the direction field.
    pub open spec fn direction_value(self, dir: Direction) -> int {
        match (self, dir) {
            (IoctlLayout::Generic, Direction::Idle) => 0,
            (IoctlLayout::Generic, Direction::Write) => 1,
            (IoctlLayout::Generic, Direction::Read) => 2,
            (IoctlLayout::Extended, Direction::Idle) => 1,
            (IoctlLayout::Extended, Direction::Read) => 2,
            (IoctlLayout::Extended, Direction::Write) => 4,
        }
    }

    /// The weight of the direction field: two to the power 16 plus the number
    /// of size bits.
    pub open spec fn direction_unit(self) -> int {
        match self {
            IoctlLayout::Generic => 0x4000_0000,
            IoctlLayout::Extended => 0x2000_0000,
        }
    }

    /// The number of values of the size field: two to the power of its width.
    pub open spec fn size_limit(self) -> int {
        match self {
            IoctlLayout::Generic => 0x4000,
            IoctlLayout::Extended => 0x2000,
        }
    }

    /// The layout of the build target: the one with the size bits that nix selected.
    pub fn native() -> IoctlLayout {
        IoctlLayout::with_size_bits(native_size_bits())
    }

    /// The number of bits of the size field.
    pub open spec fn size_bits(self) -> int {
        match self {
            IoctlLayout::Generic => 14,
            IoctlLayout::Extended => 13,
        }
    }

    /// The layout whose size field is `bits` wide: the extended one for 13
    /// bits, the generic one for every other width.
    pub fn with_size_bits(bits: u8) -> (r: IoctlLayout)
        ensures
            r == if bits == 13 {
                IoctlLayout::Extended
            } else {
                IoctlLayout::Generic
            },
            bits == 13 || bits == 14 ==> r.size_bits() == bits,
    {
        if bits == 13 {
            IoctlLayout::Extended
        } else {
            IoctlLayout::Generic
        }
    }
}

/// The request code as a number: each field reduced to its width, then
/// weighted by its position.
pub open spec fn request_code(
    layout: IoctlLayout,
    dir: Direction,
    magic: int,
    nr: int,
    size: int,
) -> int {
    layout.direction_value(dir) * layout.direction_unit() + (size % layout.size_limit()) * 0x1_0000
        + (magic % 0x100) * 0x100 + nr % 0x100
}

/// The code of "get calibration of axis `axis_index`" under `layout`.
pub open spec fn get_abs_code(layout: IoctlLayout, axis_index: u16) -> int {
    request_code(layout, Direction::Read, 0x45, 0x40 + axis_index, 24)
}

/// The code of "set calibration of axis `axis_index`" under `layout`.
pub open spec fn set_abs_code(layout: IoctlLayout, axis_index: u16) -> int {
    request_code(layout, Direction::Write, 0x45, 0xc0 + axis_index, 24)
}

/// The code of "get the bitmask of absolute axes" under `layout`.
pub open spec fn get_abs_bit_code(layout: IoctlLayout) -> int {
    request_code(layout, Direction::Read, 0x45, 0x23, 8)
}

/// `nix::sys::ioctl::SIZEBITS`: the width of the size field that nix selected
/// for the target architecture. nix defines it as 13 on the architectures with
/// three direction bits and as 14 on all others.
#[verifier::external_body]
fn native_size_bits() -> (r: u8)
    ensures
        r == 13 || r == 14,
{
    nix::sys::ioctl::SIZEBITS
}

/// Packs the four fields into a request code under `layout`.
pub fn encode(layout: IoctlLayout, dir: Direction, magic: u8, nr: u32, size: usize) -> (r: u64)
    ensures
        r == request_code(layout, dir, magic as int, nr as int, size as int),
{
    let m: u64 = magic as u64;
    let n: u64 = nr as u64;
    let s: u64 = size as u64;
    match layout {
        IoctlLayout::Generic => {
            let d: u64 = match dir {
                Direction::Idle => 0,
                Direction::Write => 1,
                Direction::Read => 2,
            };
            assert(((d << 30) | (m << 8) | (n & 0xff) | ((s & 0x3fff) << 16)) == d * 0x4000_0000
                + (s % 0x4000) * 0x1_0000 + (m % 0x100) * 0x100 + n % 0x100) by (bit_vector)
                requires
                    d <= 2,
                    m < 0x100,
            ;
            (d << 30) | (m << 8) | (n & 0xff) | ((s & 0x3fff) << 16)
        },
        IoctlLayout::Extended => {
            let d: u64 = match dir {
                Direction::Idle => 1,
                Direction::Read => 2,
                Direction::Write => 4,
            };
            assert(((d << 29) | (m << 8) | (n & 0xff) | ((s & 0x1fff) << 16)) == d * 0x2000_0000
                + (s % 0x2000) * 0x1_0000 + (m % 0x100) * 0x100 + n % 0x100) by (bit_vector)
                requires
                    d <= 4,
                    m < 0x100,
            ;
            (d << 29) | (m << 8) | (n & 0xff) | ((s & 0x1fff) << 16)
        },
    }
}

/// The code of a request that reads `size` bytes from the kernel.
pub fn request_code_read(layout: IoctlLayout, magic: u8, nr: u32, size: usize) -> (r: u64)
    ensures
        r == request_code(layout, Direction::Read, magic as int, nr as int, size as int),
{
    encode(layout, Direction::Read, magic, nr, size)
}

/// The code of a request that writes `size` bytes to the kernel.
pub fn request_code_write(layout: IoctlLayout, magic: u8, nr: u32, size: usize) -> (r: u64)
    ensures
        r == request_code(layout, Direction::Write, magic as int, nr as int, size as int),
{
    encode(layout, Direction::Write, magic, nr, size)
}

/// The code that sets the calibration of axis `axis_index` on this machine.
pub fn evioc_set_abs(axis_index: u16) -> (r: u64)
    ensures
        r == set_abs_code(IoctlLayout::Generic, axis_index) || r == set_abs_code(
            IoctlLayout::Extended,
            axis_index,
        ),
{
    request_code_write(
        IoctlLayout::native(),
        EVDEV_MAGIC,
        SET_ABS_BASE + axis_index as u32,
        ABSINFO_SIZE,
    )
}

/// The code that gets the calibration of axis `axis_index` on this machine.
pub fn evioc_get_abs(axis_index: u16) -> (r: u64)
    ensures
        r == get_abs_code(IoctlLayout::Generic, axis_index) || r == get_abs_code(
            IoctlLayout::Extended,
            axis_index,
        ),
{
    request_code_read(
        IoctlLayout::native(),
        EVDEV_MAGIC,
        GET_ABS_BASE + axis_index as u32,
        ABSINFO_SIZE,
    )
}

/// The code that gets the bitmask of absolute axes on this machine.
pub fn evioc_get_abs_bit() -> (r: u64)
    ensures
        r == get_abs_bit_code(IoctlLayout::Generic) || r == get_abs_bit_code(
            IoctlLayout::Extended,
        ),
{
    request_code_read(IoctlLayout::native(), EVDEV_MAGIC, GET_BIT_BASE + EV_ABS, ABS_BITMASK_SIZE)
}

} // verus!
