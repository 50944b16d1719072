//! A verified core for talking to Wii Remote devices through the kernel's
//! `xwiimote` interface.
//!
//! The crate holds the rules of the interface and leaves the system calls
//! to its caller:
//! - [`event`]: the decoder that turns the records of a device into typed
//!   events, and the stream that delivers them until the device is gone;
//! - [`monitor`]: the enumeration of the connected devices and the watch
//!   for new ones;
//! - [`io_blocker`]: the reactor that keeps, for each descriptor that is
//!   watched, the callback of the task that waits on it;
//! - [`device`] and [`channels`]: what is kept of an open device, and the
//!   sets of channels that can be opened on it.
//!
//! Whatever needs the system is handed in: the status that a call to the
//! device returned, the record that it received, the descriptors that the
//! kernel reported ready. What the system is to do next is handed back.

pub mod channels;
pub mod device;
pub mod event;
pub mod io_blocker;
pub mod key;
pub mod monitor;
mod sys;

pub use crate::channels::Channel;
pub use crate::channels::Channels;
pub use crate::device::Address;
pub use crate::device::Device;
pub use crate::device::DeviceError;
pub use crate::device::Led;
pub use crate::device::MotionPlusNormalization;
pub use crate::io_blocker::IoBlocker;
pub use crate::monitor::Monitor;
