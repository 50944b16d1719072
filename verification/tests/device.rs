use xwiimote::device::WRITABLE;
use xwiimote::Channel;
use xwiimote::Channels;
use xwiimote::Device;
use xwiimote::DeviceError;
use xwiimote::Led;
use xwiimote::MotionPlusNormalization;

// Stands for the kernel's side of a device: it opens what it is asked for,
// skips what is open, goes on after a failure and reports the first.
struct Kernel {
    opened: u32,
    available: u32,
}

impl Kernel {
    fn open(&mut self, word: u32) -> i32 {
        let mut status = 0;
        for channel in [Channel::Core, Channel::Accelerometer, Channel::Ir, Channel::Nunchuk] {
            let bit = channel.bit();
            if word & bit == 0 || self.opened & bit != 0 {
                continue;
            }
            if self.available & bit != 0 {
                self.opened |= bit;
            } else if status == 0 {
                status = -19;
            }
        }
        status
    }

    fn close(&mut self, mask: u32) {
        self.opened &= !mask;
    }
}

#[test]
fn a_status_is_an_outcome() {
    assert_eq!(DeviceError::check(0), Ok(()));
    assert_eq!(DeviceError::check(-19).map_err(|e| e.code()), Err(-19));
    assert_eq!(DeviceError::check(1).map_err(|e| e.code()), Err(1));
    assert_eq!(DeviceError::check(i32::MIN).map_err(|e| e.code()), Err(i32::MIN));
    assert_eq!(DeviceError::check(-2), DeviceError::check(-2));
    assert_ne!(DeviceError::check(-2), DeviceError::check(-3));
}

#[test]
fn a_failure_reads_as_its_status() {
    let message = |status: i32| DeviceError::check(status).unwrap_err().to_string();
    assert_eq!(message(-19), "device error: -19");
    assert_eq!(message(1), "device error: 1");
    assert_eq!(message(9), "device error: 9");
    assert_eq!(message(10), "device error: 10");
    assert_eq!(message(-100), "device error: -100");
    assert_eq!(message(1234567890), "device error: 1234567890");
    assert_eq!(message(i32::MAX), "device error: 2147483647");
    assert_eq!(message(i32::MIN), "device error: -2147483648");
}

#[test]
fn connecting_yields_a_device_or_the_status() {
    let device = Device::new(0).unwrap();
    assert!(!device.core_open());
    assert_eq!(Device::new(-2).map(|d| d.core_open()).map_err(|e| e.code()), Err(-2));
}

#[test]
fn the_open_word_holds_the_channels_and_the_writable_bit() {
    let set = Channels::of(Channel::Core) | Channels::of(Channel::Nunchuk);
    assert_eq!(Device::open_flags(set, false), 0x201);
    assert_eq!(Device::open_flags(set, true), 0x10201);
    assert_eq!(Device::open_flags(Channels::empty(), true), 0x10000);
    assert_eq!(Device::open_flags(Channels::all(), true), 0x17f07);
    assert_eq!(WRITABLE, 1 << 16);
}

#[test]
fn the_core_channel_counts_as_open_once_it_is_opened_for_writing() {
    let core = Channels::of(Channel::Core);
    let mut device = Device::new(0).unwrap();
    assert_eq!(device.open(core, false, 0), Ok(()));
    assert!(!device.core_open());
    assert_eq!(device.open(Channels::of(Channel::Ir), true, 0), Ok(()));
    assert!(!device.core_open());
    assert_eq!(device.open(core, true, -5).map_err(|e| e.code()), Err(-5));
    assert!(!device.core_open());
    assert_eq!(device.open(core | Channels::of(Channel::Ir), true, 0), Ok(()));
    assert!(device.core_open());
    // It stays so, whatever is opened next.
    assert_eq!(device.open(core, false, 0), Ok(()));
    assert!(device.core_open());
    assert_eq!(device.open(core, true, -5).map_err(|e| e.code()), Err(-5));
    assert!(device.core_open());
}

#[test]
fn writing_operations_open_the_core_channel_first() {
    let mut device = Device::new(0).unwrap();
    assert_eq!(device.ensure_core_open(), Some(0x10001));
    assert_eq!(
        device.ensure_core_open(),
        Some(Device::open_flags(Channels::of(Channel::Core), true))
    );
    device.open(Channels::of(Channel::Core), true, 0).unwrap();
    assert_eq!(device.ensure_core_open(), None);
    device.close(Channels::of(Channel::Core));
    assert_eq!(device.ensure_core_open(), Some(0x10001));
}

#[test]
fn closing_is_idempotent() {
    let core = Channels::of(Channel::Core);
    let set = core | Channels::of(Channel::Accelerometer);
    let mut kernel = Kernel { opened: 0, available: 0x7 };
    let mut device = Device::new(0).unwrap();
    let status = kernel.open(Device::open_flags(set, true));
    assert_eq!(device.open(set, true, status), Ok(()));
    assert!(device.core_open());
    assert_eq!(kernel.opened, 0x3);

    let mask = device.close(set);
    assert_eq!(mask, 0x3);
    kernel.close(mask);
    assert!(!device.core_open());
    assert_eq!(kernel.opened, 0);

    // Once more, on channels that are closed already.
    let mask = device.close(set);
    assert_eq!(mask, 0x3);
    kernel.close(mask);
    assert!(!device.core_open());
    assert_eq!(kernel.opened, 0);
}

#[test]
fn closing_other_channels_leaves_the_core_channel() {
    let mut device = Device::new(0).unwrap();
    device.open(Channels::of(Channel::Core), true, 0).unwrap();
    assert_eq!(device.close(Channels::of(Channel::Ir) | Channels::of(Channel::Guitar)), 0x4004);
    assert!(device.core_open());
    assert_eq!(device.close(Channels::empty()), 0);
    assert!(device.core_open());
    assert_eq!(device.close(Channels::all()), 0x7f07);
    assert!(!device.core_open());
}

#[test]
fn a_partial_failure_is_an_error_and_leaves_the_valid_channel_open() {
    // The Nunchuk is not plugged in, so its channel always fails to open.
    let mut kernel = Kernel { opened: 0, available: 0x7 };
    let mut device = Device::new(0).unwrap();
    let set = Channels::of(Channel::Nunchuk) | Channels::of(Channel::Accelerometer);
    let status = kernel.open(Device::open_flags(set, false));
    assert_eq!(device.open(set, false, status).map_err(|e| e.code()), Err(-19));
    // What was opened is for the caller to ask.
    let opened = Channels::from_bits(kernel.opened).unwrap();
    assert!(opened.contains(Channels::of(Channel::Accelerometer)));
    assert!(!opened.contains(Channels::of(Channel::Nunchuk)));
    let available = Channels::from_bits(kernel.available).unwrap();
    assert!(available.contains(opened));
}

#[test]
fn a_partial_failure_leaves_the_record_of_the_core_channel_stale() {
    let mut kernel = Kernel { opened: 0, available: 0x7 };
    let mut device = Device::new(0).unwrap();
    let set = Channels::of(Channel::Nunchuk) | Channels::of(Channel::Core);
    let status = kernel.open(Device::open_flags(set, true));
    assert!(device.open(set, true, status).is_err());
    assert!(Channels::from_bits(kernel.opened).unwrap().contains(Channels::of(Channel::Core)));
    assert!(!device.core_open());
    // The next request for the channel sets the record right.
    let core = Channels::of(Channel::Core);
    let status = kernel.open(Device::open_flags(core, true));
    assert_eq!(device.open(core, true, status), Ok(()));
    assert!(device.core_open());
}

#[test]
fn lights_are_numbered_from_one() {
    assert_eq!(Led::One.index(), 1);
    assert_eq!(Led::Two.index(), 2);
    assert_eq!(Led::Three.index(), 3);
    assert_eq!(Led::Four.index(), 4);
}

#[test]
fn normalization_defaults_to_zero() {
    assert_eq!(
        MotionPlusNormalization::default(),
        MotionPlusNormalization { x: 0, y: 0, z: 0, factor: 0 }
    );
}
