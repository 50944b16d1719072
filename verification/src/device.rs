//! Devices: their addresses, the errors that requests to them report, and the
//! record that the library keeps of an open device.

use std::path::PathBuf;
use vstd::prelude::*;

use crate::channels::Channel;
use crate::channels::Channels;
use crate::event::EventStream;
use crate::io_blocker::CtlRequest;
use crate::io_blocker::IoBlocker;
use crate::io_blocker::ReactorError;
use crate::io_blocker::READ_EVENTS;

verus! {

/// `std::path::PathBuf`, an owned path. Nothing of what a path holds is
/// claimed: the library carries paths and never looks into them.
#[verifier::external_type_specification]
#[verifier::external_body]
pub struct ExPathBuf(PathBuf);

/// `PathBuf::clone`. Claims that the copy is the path that was copied.
pub assume_specification[ <PathBuf as Clone>::clone ](path: &PathBuf) -> (copy: PathBuf)
    ensures
        copy == *path,
;

/// The character that stands for a decimal digit.
pub open spec fn digit(d: nat) -> char {
    if d == 0 {
        '0'
    } else if d == 1 {
        '1'
    } else if d == 2 {
        '2'
    } else if d == 3 {
        '3'
    } else if d == 4 {
        '4'
    } else if d == 5 {
        '5'
    } else if d == 6 {
        '6'
    } else if d == 7 {
        '7'
    } else if d == 8 {
        '8'
    } else {
        '9'
    }
}

/// The decimal numeral of a natural number, without leading zeros.
pub open spec fn decimal(n: nat) -> Seq<char>
    decreases n,
{
    if n < 10 {
        seq![digit(n)]
    } else {
        decimal(n / 10).push(digit(n % 10))
    }
}

/// The decimal numeral of an integer: that of its magnitude, after a minus
/// sign where the integer is negative.
pub open spec fn signed_decimal(v: int) -> Seq<char> {
    if v < 0 {
        seq!['-'] + decimal((-v) as nat)
    } else {
        decimal(v as nat)
    }
}

/// Returns the numeral of one digit.
fn digit_str(d: u8) -> (numeral: &'static str)
    requires
        d < 10,
    ensures
        numeral@ == seq![digit(d as nat)],
{
    proof {
        reveal_strlit("0");
        reveal_strlit("1");
        reveal_strlit("2");
        reveal_strlit("3");
        reveal_strlit("4");
        reveal_strlit("5");
        reveal_strlit("6");
        reveal_strlit("7");
        reveal_strlit("8");
        reveal_strlit("9");
    }
    let numeral = match d {
        0 => "0",
        1 => "1",
        2 => "2",
        3 => "3",
        4 => "4",
        5 => "5",
        6 => "6",
        7 => "7",
        8 => "8",
        _ => "9",
    };
    assert(numeral@ =~= seq![digit(d as nat)]);
    numeral
}

/// Appends the decimal numeral of `n` to `text`.
fn append_decimal(text: &mut String, n: u64)
    ensures
        final(text)@ == old(text)@ + decimal(n as nat),
    decreases n,
{
    if n >= 10 {
        append_decimal(text, n / 10);
    }
    text.append(digit_str((n % 10) as u8));
    assert(text@ =~= old(text)@ + decimal(n as nat));
}

/// The failure of a request to a device, with the status that the kernel
/// interface reported for it.
#[derive(Copy, Clone, Debug, PartialEq, Eq, Structural)]
pub struct DeviceError(pub i32);

impl DeviceError {
    /// The outcome that a status reports: success where it is zero, and a
    /// failure that carries the status where it is not.
    pub open spec fn status_result(status: i32) -> Result<(), DeviceError> {
        if status == 0 {
            Ok(())
        } else {
            Err(DeviceError(status))
        }
    }

    /// What a failure with the given status reads as.
    pub open spec fn message(code: i32) -> Seq<char> {
        "device error: "@ + signed_decimal(code as int)
    }

    /// Describes the failure: the words `device error: ` and the status in
    /// decimal.
    pub fn to_string(&self) -> (text: String)
        ensures
            text@ == Self::message(self.0),
    {
        let mut text = String::from_str("device error: ");
        let code = self.0 as i64;
        if code < 0 {
            proof {
                reveal_strlit("-");
            }
            text.append("-");
            assert(text@ =~= "device error: "@ + seq!['-']);
            append_decimal(&mut text, (-code) as u64);
        } else {
            append_decimal(&mut text, code as u64);
        }
        assert(text@ =~= Self::message(self.0));
        text
    }

    /// Returns the status that the kernel interface reported.
    pub fn code(&self) -> (code: i32)
        ensures
            code == self.0,
    {
        self.0
    }

    /// Turns the status of a request into its outcome.
    pub fn check(status: i32) -> (outcome: Result<(), DeviceError>)
        ensures
            outcome == Self::status_result(status),
    {
        if status != 0 {
            Err(DeviceError(status))
        } else {
            Ok(())
        }
    }
}

/// A Wii Remote device address.
#[derive(Debug)]
pub struct Address(PathBuf);

impl Clone for Address {
    /// Copies the address: the copy names the same path.
    fn clone(&self) -> (copy: Address)
        ensures
            copy@ == self@,
    {
        Address(self.0.clone())
    }
}

impl View for Address {
    type V = PathBuf;

    closed spec fn view(&self) -> PathBuf {
        self.0
    }
}

impl Address {
    /// Returns the path of the device's root node.
    pub fn path(&self) -> (path: &PathBuf)
        ensures
            *path == self@,
    {
        &self.0
    }
}

impl vstd::std_specs::convert::FromSpecImpl<PathBuf> for Address {
    open spec fn obeys_from_spec() -> bool {
        true
    }

    closed spec fn from_spec(path: PathBuf) -> Address {
        Address(path)
    }
}

impl From<PathBuf> for Address {
    /// Creates the device address at the specified path.
    ///
    /// If the file at the path exists, it should represent the root node
    /// of a Wii Remote device.
    fn from(path: PathBuf) -> (address: Address)
        ensures
            address@ == path,
    {
        Address(path)
    }
}

/// Motion Plus sensor normalization and calibration values.
///
/// The absolute offsets are subtracted from any Motion Plus sensor data
/// before they are returned in an event.
#[derive(Copy, Clone, Eq, PartialEq, Debug, Structural)]
pub struct MotionPlusNormalization {
    /// Absolute x-axis offset.
    pub x: i32,
    /// Absolute y-axis offset.
    pub y: i32,
    /// Absolute z-axis offset
    pub z: i32,
    /// Calibration factor used to establish the zero-point of the Motion
    /// Plus sensor data depending on its output.
    pub factor: i32,
}

impl Default for MotionPlusNormalization {
    /// The values of a sensor that needs no correction.
    fn default() -> (values: MotionPlusNormalization)
        ensures
            values == (MotionPlusNormalization { x: 0, y: 0, z: 0, factor: 0 }),
    {
        MotionPlusNormalization { x: 0, y: 0, z: 0, factor: 0 }
    }
}

/// The Wii Remote LED lights.
#[derive(Copy, Clone, Debug, PartialEq, Eq, Structural)]
pub enum Led {
    /// The left-most light.
    One,
    /// The mid-left light.
    Two,
    /// The mid-right light.
    Three,
    /// The right-most light.
    Four,
}

impl Led {
    /// The number by which the kernel interface knows the light: one for
    /// the left-most, counting to the right.
    pub open spec fn number(self) -> u32 {
        match self {
            Led::One => 1,
            Led::Two => 2,
            Led::Three => 3,
            Led::Four => 4,
        }
    }

    /// Returns the number by which the kernel interface knows the light.
    pub fn index(self) -> (index: u32)
        ensures
            index == self.number(),
            1 <= index <= 4,
    {
        match self {
            Led::One => 1,
            Led::Two => 2,
            Led::Three => 3,
            Led::Four => 4,
        }
    }
}

/// The bit that asks for a channel to be opened for writing.
pub const WRITABLE: u32 = 0x10000;

/// A connected Wii Remote, as far as the library keeps track of it.
///
/// Which channels are open or available is the kernel's to say and is not
/// kept here. What is kept is whether the primary channel was opened for
/// writing, since some operations open it on their own when it is not. The
/// kernel may close the channel behind the library's back; what is kept
/// here then stays as it was until the next call of [`Device::open`] or
/// [`Device::close`].
#[derive(Debug)]
pub struct Device {
    // Have we opened the core channel in writable mode?
    core_open: bool,
}

impl View for Device {
    type V = bool;

    closed spec fn view(&self) -> bool {
        self.core_open
    }
}

impl Device {
    /// The word that asks the kernel interface to open `channels`: the
    /// mask of the channels, and the writable bit where they are to be
    /// written to.
    pub open spec fn open_word(channels: Channels, writable: bool) -> u32 {
        channels.mask() | if writable {
            WRITABLE
        } else {
            0
        }
    }

    /// The record of a device after the attempt to connect to it returned
    /// `status`: none where the attempt failed, and else one with the
    /// primary channel not yet opened for writing.
    pub fn new(status: i32) -> (device: Result<Device, DeviceError>)
        ensures
            status == 0 ==> (device matches Ok(d) && !d@),
            status != 0 ==> (device matches Err(e) && e == DeviceError(status)),
    {
        match DeviceError::check(status) {
            Ok(()) => Ok(Device { core_open: false }),
            Err(e) => Err(e),
        }
    }

    /// Tells whether the primary channel was opened for writing.
    pub fn core_open(&self) -> (open: bool)
        ensures
            open == self@,
    {
        self.core_open
    }

    /// Returns the word that asks the kernel interface to open `channels`.
    pub fn open_flags(channels: Channels, writable: bool) -> (word: u32)
        ensures
            word == Self::open_word(channels, writable),
    {
        let bits = channels.bits();
        let flag: u32 = if writable {
            1
        } else {
            0
        };
        assert(1u32 << 16 == 0x10000u32) by (bit_vector);
        assert(0u32 << 16 == 0u32) by (bit_vector);
        bits | flag << 16
    }

    /// Whether the primary channel counts as opened for writing after a
    /// request to open `channels` returned `status`: as before, and also
    /// once a request that asks for it to be written to succeeds.
    pub open spec fn after_open(
        core_open: bool,
        channels: Channels,
        writable: bool,
        status: i32,
    ) -> bool {
        core_open || (status == 0 && writable && channels@.contains(Channel::Core))
    }

    /// Whether the primary channel counts as opened for writing after
    /// `channels` were closed: as before, unless it is among them.
    pub open spec fn after_close(core_open: bool, channels: Channels) -> bool {
        core_open && !channels@.contains(Channel::Core)
    }

    /// Records the outcome of a request to open `channels`, which returned
    /// `status`.
    ///
    /// The kernel skips the channels that are open already, tries all the
    /// others, and reports the first failure; which channels it opened in
    /// that case is for the caller to ask. The primary channel counts as
    /// opened for writing once a request for it succeeds as a whole.
    pub fn open(&mut self, channels: Channels, writable: bool, status: i32) -> (outcome: Result<
        (),
        DeviceError,
    >)
        ensures
            outcome == DeviceError::status_result(status),
            final(self)@ == Self::after_open(old(self)@, channels, writable, status),
    {
        DeviceError::check(status)?;
        if channels.contains(Channels::of(Channel::Core)) && writable {
            self.core_open = true;
        }
        Ok(())
    }

    /// Tells what an operation that writes to the primary channel has to
    /// ask of the kernel first: nothing where the channel was opened for
    /// writing, and else the word that opens it so.
    pub fn ensure_core_open(&self) -> (request: Option<u32>)
        ensures
            self@ ==> request is None,
            !self@ ==> request == Some(0x10001u32),
    {
        if !self.core_open {
            assert(0x1u32 | 0x10000u32 == 0x10001u32) by (bit_vector);
            Some(Self::open_flags(Channels::of(Channel::Core), true))
        } else {
            None
        }
    }

    /// Records that `channels` are closed, and returns the mask that asks
    /// the kernel interface to close them. Channels that are closed
    /// already stay so.
    pub fn close(&mut self, channels: Channels) -> (mask: u32)
        ensures
            mask == channels.mask(),
            final(self)@ == Self::after_close(old(self)@, channels),
    {
        if channels.contains(Channels::of(Channel::Core)) {
            self.core_open = false;
        }
        channels.bits()
    }

    /// Closing is idempotent: to close a set of channels again changes
    /// nothing. And a request to open that failed changes nothing either.
    pub proof fn lemma_close_idempotent(
        core_open: bool,
        channels: Channels,
        writable: bool,
        status: i32,
    )
        ensures
            Self::after_close(Self::after_close(core_open, channels), channels)
                == Self::after_close(core_open, channels),
            status != 0 ==> Self::after_open(core_open, channels, writable, status) == core_open,
    {
    }

    /// Returns a stream that yields the events received from the device
    /// with the descriptor `fd`.
    ///
    /// Most kinds of events are received only if the appropriate channels
    /// are open.
    pub fn events<W>(&self, fd: i32, blocker: &mut IoBlocker<W>) -> (stream: Result<
        (EventStream, CtlRequest),
        ReactorError,
    >)
        ensures
            match old(blocker)@.add_result(fd, READ_EVENTS) {
                Ok(request) => stream matches Ok((s, r)) && r == request && s@.fd == fd
                    && s@.have_interest,
                Err(e) => stream matches Err(why) && why == e,
            },
            final(blocker)@ == old(blocker)@.after_add(fd, READ_EVENTS),
            old(blocker)@.wf() ==> final(blocker)@.wf(),
            stream matches Ok((s, _)) ==> s@.registered_in(final(blocker)@),
    {
        EventStream::try_new(fd, blocker)
    }
}

} // verus!
