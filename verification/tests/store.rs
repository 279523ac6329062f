use evdev_absinfo::absinfo::{AbsInfo, InputAbsInfo};
use evdev_absinfo::bitmask::{axis_supported, test_axis, AbsBitMask};
use evdev_absinfo::error::Error;
use evdev_absinfo::ioctl::{evioc_get_abs, evioc_get_abs_bit, evioc_set_abs, ABS_MAX};
use evdev_absinfo::store::{check_valid_axis, ioctl_reply};

/// A device that lives in memory: it answers the three ioctls and counts them.
struct VirtualDevice {
    mask: Result<AbsBitMask, i32>,
    axes: Vec<InputAbsInfo>,
    transfer_error: Option<i32>,
    issued: Vec<u64>,
}

impl VirtualDevice {
    fn new(mask: AbsBitMask) -> VirtualDevice {
        let axes = (0..64)
            .map(|i| InputAbsInfo {
                value: 10 * i,
                minimum: 0,
                maximum: 1000 + i,
                fuzz: 1,
                flat: 16,
                resolution: 0,
            })
            .collect();
        VirtualDevice { mask: Ok(mask), axes, transfer_error: None, issued: Vec::new() }
    }

    fn query_bitmask(&mut self, code: u64) -> Result<AbsBitMask, i32> {
        assert_eq!(code, evioc_get_abs_bit());
        self.issued.push(code);
        self.mask
    }

    fn read(&mut self, code: u64, axis: u16, buffer: InputAbsInfo) -> Result<InputAbsInfo, i32> {
        assert_eq!(code, evioc_get_abs(axis));
        assert_eq!(buffer, InputAbsInfo::zeroed());
        self.issued.push(code);
        match self.transfer_error {
            Some(errno) => Err(errno),
            None => Ok(self.axes[axis as usize]),
        }
    }

    fn write(&mut self, code: u64, axis: u16, payload: InputAbsInfo) -> Result<(), i32> {
        assert_eq!(code, evioc_set_abs(axis));
        self.issued.push(code);
        match self.transfer_error {
            Some(errno) => Err(errno),
            None => {
                self.axes[axis as usize] = payload;
                Ok(())
            }
        }
    }
}

fn get(device: &mut VirtualDevice, axis_index: u16) -> Result<AbsInfo, Error> {
    let pending = AbsInfo::get_absinfo(axis_index)?;
    let reply = device.query_bitmask(pending.request_code());
    let ready = pending.check_valid_axis(reply)?;
    let reply = device.read(ready.request_code(), ready.axis(), ready.buffer());
    ready.complete(reply)
}

fn set(device: &mut VirtualDevice, info: AbsInfo) -> Result<(), Error> {
    let pending = info.set_absinfo()?;
    let axis = pending.axis();
    let reply = device.query_bitmask(pending.request_code());
    let ready = pending.check_valid_axis(reply)?;
    let reply = device.write(ready.request_code(), axis, ready.payload());
    ready.complete(reply)
}

const THROTTLE: AbsBitMask = [0b0010_0111, 0, 0x03, 0, 0, 0, 0, 0x80];

#[test]
fn lib_test_read_and_write() {
    let mut file = VirtualDevice::new(THROTTLE);
    let mut abs_info = get(&mut file, 2).expect("Axis 2 on this device is valid");
    abs_info.inner.maximum /= 2;
    let temp = abs_info.inner.maximum;
    set(&mut file, abs_info).expect("Setting the maximum value to half should always succeed");
    let abs_info = get(&mut file, 2).expect("Axis 2 on this device is valid");
    assert_eq!(abs_info.inner.maximum, temp);
    assert_eq!(temp, 501);
}

#[test]
fn lib_test_read() {
    let mut file = VirtualDevice::new(THROTTLE);
    let abs_info = get(&mut file, 2).expect("Axis 2 on this device is valid");
    assert_eq!(abs_info.axis(), 2);
    assert_eq!(
        abs_info.inner,
        InputAbsInfo { value: 20, minimum: 0, maximum: 1002, fuzz: 1, flat: 16, resolution: 0 }
    );
    assert_eq!(file.issued, vec![evioc_get_abs_bit(), evioc_get_abs(2)]);
}

#[test]
fn test_out_of_bounds_axis() {
    let mut file = VirtualDevice::new([0xff; 8]);
    assert!(matches!(get(&mut file, ABS_MAX + 1), Err(Error::UnboundAxis(_))));
    assert!(file.issued.is_empty());
}

#[test]
fn lib_test_invalid_axis() {
    let mut file = VirtualDevice::new(THROTTLE);
    assert!(matches!(get(&mut file, 8), Err(Error::NonAbsAxis(_))));
    assert_eq!(file.issued, vec![evioc_get_abs_bit()]);
}

#[test]
fn unbound_axis_fails_before_any_ioctl() {
    let mut file = VirtualDevice::new([0xff; 8]);
    assert_eq!(get(&mut file, 64).err(), Some(Error::UnboundAxis(64)));
    assert_eq!(get(&mut file, u16::MAX).err(), Some(Error::UnboundAxis(u16::MAX)));
    let info = AbsInfo::new(64, InputAbsInfo::zeroed());
    assert_eq!(set(&mut file, info), Err(Error::UnboundAxis(64)));
    assert!(file.issued.is_empty());
    assert!(get(&mut file, 63).is_ok());
}

#[test]
fn unsupported_axis_fails_before_the_calibration_ioctl() {
    let mut file = VirtualDevice::new(THROTTLE);
    assert_eq!(axis_supported(8, Ok(THROTTLE)), Ok(false));
    assert_eq!(get(&mut file, 8).err(), Some(Error::NonAbsAxis(8)));
    let info = AbsInfo::new(8, InputAbsInfo::zeroed());
    assert_eq!(set(&mut file, info), Err(Error::NonAbsAxis(8)));
    assert_eq!(file.issued, vec![evioc_get_abs_bit(), evioc_get_abs_bit()]);
    assert_eq!(file.axes[8].maximum, 1008);
}

#[test]
fn failed_ioctls_carry_the_os_error() {
    let mut file = VirtualDevice::new(THROTTLE);
    file.transfer_error = Some(22);
    assert_eq!(get(&mut file, 2).err(), Some(Error::OsError(22)));
    assert_eq!(set(&mut file, AbsInfo::new(2, InputAbsInfo::zeroed())), Err(Error::OsError(22)));
    file.mask = Err(25);
    file.issued.clear();
    assert_eq!(get(&mut file, 2).err(), Some(Error::OsError(25)));
    assert_eq!(set(&mut file, AbsInfo::new(2, InputAbsInfo::zeroed())), Err(Error::OsError(25)));
    assert_eq!(file.issued, vec![evioc_get_abs_bit(), evioc_get_abs_bit()]);
}

#[test]
fn bitmask_bits_are_counted_from_the_low_end() {
    for axis in 0..=ABS_MAX {
        let expected = matches!(axis, 0 | 1 | 2 | 5 | 16 | 17 | 63);
        assert_eq!(test_axis(axis, &THROTTLE), expected);
        assert_eq!(axis_supported(axis, Ok(THROTTLE)), Ok(expected));
    }
    assert_eq!(axis_supported(64, Ok([0xff; 8])), Ok(false));
    assert_eq!(axis_supported(u16::MAX, Ok([0xff; 8])), Ok(false));
    assert_eq!(axis_supported(2, Err(25)), Err(Error::OsError(25)));
}

#[test]
fn capability_check_on_a_reply() {
    assert_eq!(check_valid_axis(5, Ok(THROTTLE)), Ok(()));
    assert_eq!(check_valid_axis(6, Ok(THROTTLE)), Err(Error::NonAbsAxis(6)));
    assert_eq!(check_valid_axis(5, Err(9)), Err(Error::OsError(9)));
}

#[test]
fn ioctl_reply_reads_the_error_number() {
    assert_eq!(ioctl_reply(0, 7u8), Ok(7));
    assert_eq!(ioctl_reply(3, "kept"), Ok("kept"));
    assert_eq!(ioctl_reply(-2, THROTTLE), Ok(THROTTLE));
    nix::errno::Errno::EINVAL.set();
    assert_eq!(ioctl_reply(-1, 7u8), Err(libc::EINVAL));
    nix::errno::Errno::ENOTTY.set();
    assert_eq!(ioctl_reply(-1, ()), Err(libc::ENOTTY));
}

#[test]
fn failed_ioctl_ends_a_get_with_its_error_number() {
    let ready = AbsInfo::get_absinfo(2)
        .and_then(|pending| pending.check_valid_axis(ioctl_reply(0, THROTTLE)))
        .expect("Axis 2 on this device is valid");
    nix::errno::Errno::ENODEV.set();
    let reply = ioctl_reply(-1, ready.buffer());
    assert_eq!(ready.complete(reply).err(), Some(Error::OsError(libc::ENODEV)));
}
