//! Events reported by a device, and the decoder that produces them from the
//! fixed-layout records of the kernel interface.

use vstd::prelude::*;

use crate::io_blocker::read_events;
use crate::io_blocker::CtlRequest;
use crate::io_blocker::IoBlocker;
use crate::io_blocker::ReactorError;
use crate::io_blocker::ReactorState;
use crate::io_blocker::Removal;
use crate::io_blocker::READ_EVENTS;
use crate::key::ClassicControllerKey;
use crate::key::DrumsKey;
use crate::key::GuitarKey;
use crate::key::Key;
use crate::key::KeyCode;
use crate::key::KeyState;
use crate::key::NunchukKey;
use crate::key::ProControllerKey;
use crate::sys::eagain;

verus! {

/// The number of IR sources that the camera tracks at once.
pub const MAX_IR_SOURCES: usize = 4;

/// The number of sample slots in a record.
pub const ABS_SLOTS: usize = 8;

/// The coordinate that marks a tracking slot without a source.
pub const MISSING_SOURCE: i32 = 1023;

/// Tag of a record that reports a key of the Wii Remote.
pub const EVENT_KEY: u32 = 0;

/// Tag of a record that carries accelerometer data.
pub const EVENT_ACCEL: u32 = 1;

/// Tag of a record that carries IR camera data.
pub const EVENT_IR: u32 = 2;

/// Tag of a record that carries Balance Board weights.
pub const EVENT_BALANCE_BOARD: u32 = 3;

/// Tag of a record that carries Motion Plus gyroscope data.
pub const EVENT_MOTION_PLUS: u32 = 4;

/// Tag of a record that reports a key of a Wii U Pro controller.
pub const EVENT_PRO_CONTROLLER_KEY: u32 = 5;

/// Tag of a record that reports the sticks of a Wii U Pro controller.
pub const EVENT_PRO_CONTROLLER_MOVE: u32 = 6;

/// Tag of a record that reports a hot-plug change on the device.
pub const EVENT_WATCH: u32 = 7;

/// Tag of a record that reports a key of a Classic controller.
pub const EVENT_CLASSIC_CONTROLLER_KEY: u32 = 8;

/// Tag of a record that reports the sticks of a Classic controller.
pub const EVENT_CLASSIC_CONTROLLER_MOVE: u32 = 9;

/// Tag of a record that reports a key of a Nunchuk.
pub const EVENT_NUNCHUK_KEY: u32 = 10;

/// Tag of a record that reports the stick of a Nunchuk.
pub const EVENT_NUNCHUK_MOVE: u32 = 11;

/// Tag of a record that reports a key of a drums controller.
pub const EVENT_DRUMS_KEY: u32 = 12;

/// Tag of a record that reports the pads of a drums controller.
pub const EVENT_DRUMS_MOVE: u32 = 13;

/// Tag of a record that reports a key of a guitar controller.
pub const EVENT_GUITAR_KEY: u32 = 14;

/// Tag of a record that reports the bars of a guitar controller.
pub const EVENT_GUITAR_MOVE: u32 = 15;

/// Tag of the record that announces the removal of the device.
pub const EVENT_GONE: u32 = 16;

/// The time of a record, as the kernel writes it: seconds and microseconds
/// since the Unix epoch.
#[derive(Copy, Clone, Debug, PartialEq, Eq)]
pub struct RawTime {
    /// Whole seconds.
    pub tv_sec: i64,
    /// Microseconds within the second.
    pub tv_usec: i64,
}

/// The key payload of a record.
#[derive(Copy, Clone, Debug, PartialEq, Eq)]
pub struct RawKey {
    /// The code that names the key.
    pub code: u32,
    /// The code that names the state of the key.
    pub state: u32,
}

/// One sample slot of a record.
#[derive(Copy, Clone, Debug, PartialEq, Eq)]
pub struct RawAbs {
    /// First field of the sample.
    pub x: i32,
    /// Second field of the sample.
    pub y: i32,
    /// Third field of the sample.
    pub z: i32,
}

/// A record as the device interface delivers it.
///
/// The interface overlays the key payload and the sample slots; the tag
/// says which of the two the record carries, and the decoder reads no
/// other.
#[derive(Copy, Clone, Debug, PartialEq, Eq)]
pub struct RawEvent {
    /// The time at which the kernel generated the record.
    pub time: RawTime,
    /// The tag that tells the kind of the record.
    pub tag: u32,
    /// The key payload.
    pub key: RawKey,
    /// The sample slots.
    pub abs: [RawAbs; ABS_SLOTS],
}

/// A point in time, counted from the Unix epoch.
#[derive(Copy, Clone, Debug, PartialEq, Eq)]
pub struct Timestamp {
    /// Whole seconds since the epoch.
    pub secs: u64,
    /// Nanoseconds within the second.
    pub nanos: u32,
}

impl Timestamp {
    /// The point in time that `time` denotes. There is none where a field
    /// is negative or the microseconds do not lie within one second.
    pub open spec fn of(time: RawTime) -> Option<Timestamp> {
        if 0 <= time.tv_sec && 0 <= time.tv_usec < 1_000_000 {
            Some(
                Timestamp { secs: time.tv_sec as u64, nanos: (time.tv_usec * 1000) as u32 },
            )
        } else {
            None
        }
    }

    /// Converts the time of a record.
    pub fn from_raw(time: &RawTime) -> (stamp: Option<Timestamp>)
        ensures
            stamp == Self::of(*time),
            stamp matches Some(t) ==> t.secs == time.tv_sec && t.nanos == time.tv_usec * 1000
                && t.nanos < 1_000_000_000,
    {
        if 0 <= time.tv_sec && 0 <= time.tv_usec && time.tv_usec < 1_000_000 {
            Some(Timestamp { secs: time.tv_sec as u64, nanos: (time.tv_usec * 1000) as u32 })
        } else {
            None
        }
    }
}

/// Why a record could not be decoded.
#[derive(Copy, Clone, Debug, PartialEq, Eq)]
pub enum DecodeError {
    /// The time of the record is negative or its microseconds exceed a
    /// second.
    MalformedTime,
    /// The key code names no key of the controller that sent the record.
    UnknownKeyCode(u32),
    /// The state code names no key state.
    UnknownKeyState(u32),
    /// The record announces the removal of the device, which ends a stream
    /// and carries no event.
    UnexpectedRemoval,
    /// The tag names no kind of event that can be decoded.
    UnexpectedEventType(u32),
}

/// An IR source detected by the IR camera, as reported in
/// [`EventKind::Ir`].
#[derive(Copy, Clone, Debug, PartialEq, Eq)]
pub struct IrSource {
    /// The x-axis position.
    pub x: i32,
    /// The y-axis position.
    pub y: i32,
}

impl IrSource {
    /// The source that a tracking slot holds: none where either coordinate
    /// is [`MISSING_SOURCE`].
    pub open spec fn from_slot(pos: RawAbs) -> Option<IrSource> {
        if pos.x != MISSING_SOURCE && pos.y != MISSING_SOURCE {
            Some(IrSource { x: pos.x, y: pos.y })
        } else {
            None
        }
    }

    /// The sources that the slots of an IR record hold, each at the index
    /// of its slot.
    pub open spec fn sources_of(raw: RawEvent) -> [Option<IrSource>; MAX_IR_SOURCES] {
        [
            Self::from_slot(raw.abs[0]),
            Self::from_slot(raw.abs[1]),
            Self::from_slot(raw.abs[2]),
            Self::from_slot(raw.abs[3]),
        ]
    }

    /// Parses the IR sources of a record of kind [`EVENT_IR`].
    pub fn parse(raw: &RawEvent) -> (sources: [Option<IrSource>; MAX_IR_SOURCES])
        ensures
            sources == Self::sources_of(*raw),
            forall|i: int| 0 <= i < 4 ==> sources[i] == Self::from_slot(#[trigger] raw.abs[i]),
    {
        let mut sources: [Option<IrSource>; MAX_IR_SOURCES] = [None; 4];
        let mut ix: usize = 0;
        while ix < MAX_IR_SOURCES
            invariant
                ix <= MAX_IR_SOURCES,
                forall|i: int| 0 <= i < ix ==> sources[i] == Self::from_slot(#[trigger] raw.abs[i]),
            decreases MAX_IR_SOURCES - ix,
        {
            let pos = raw.abs[ix];
            if pos.x != MISSING_SOURCE && pos.y != MISSING_SOURCE {
                sources[ix] = Some(IrSource { x: pos.x, y: pos.y });
            } else {
                sources[ix] = None;
            }
            ix += 1;
        }
        assert(sources =~= Self::sources_of(*raw));
        sources
    }
}

/// The type of an [`Event`], including its associated data.
#[non_exhaustive]
#[derive(Copy, Clone, Debug, PartialEq, Eq)]
pub enum EventKind {
    /// The state of a Wii Remote controller key changed.
    ///
    /// Received only if the core channel is open.
    Key(Key, KeyState),
    /// Provides the accelerometer data.
    ///
    /// Received only if the accelerometer channel is open.
    Accelerometer {
        /// The x-axis acceleration.
        x: i32,
        /// The y-axis acceleration.
        y: i32,
        /// The z-axis acceleration.
        z: i32,
    },
    /// Provides the IR camera data.
    ///
    /// The camera can track up to four IR sources. The index of each
    /// source within the array is maintained across events.
    ///
    /// Received only if the IR channel is open.
    Ir([Option<IrSource>; MAX_IR_SOURCES]),
    /// Provides Balance Board weight data. Four sensors report data for
    /// each of the edges of the board.
    ///
    /// Received only if the Balance Board channel is open.
    BalanceBoard([i32; 4]),
    /// Provides the Motion Plus extension gyroscope data.
    ///
    /// Received only if the Motion Plus channel is open.
    MotionPlus {
        /// The x-axis rotational speed.
        x: i32,
        /// The y-axis rotational speed.
        y: i32,
        /// The z-axis rotational speed.
        z: i32,
    },
    /// The state of a Wii U Pro controller key changed.
    ///
    /// Received only if the Pro controller channel is open.
    ProControllerKey(ProControllerKey, KeyState),
    /// Reports the movement of an analog stick from a Wii U Pro
    /// controller.
    ///
    /// Received only if the Pro controller channel is open.
    ProControllerMove {
        /// The left analog stick absolute x-axis position.
        left_x: i32,
        /// The left analog stick absolute y-axis position.
        left_y: i32,
        /// The right analog stick absolute x-axis position.
        right_x: i32,
        /// The right analog stick absolute y-axis position.
        right_y: i32,
    },
    /// An extension was plugged or unplugged, or some other static data
    /// that cannot be monitored separately changed.
    ///
    /// No payload is provided, hence the application should check what
    /// changed by examining the device manually.
    Other,
    /// The state of a Classic controller key changed.
    ///
    /// Received only if the Classic controller channel is open.
    ClassicControllerKey(ClassicControllerKey, KeyState),
    /// Reports the movement of an analog stick from a Classic controller.
    ///
    /// Received only if the Classic controller channel is open.
    ClassicControllerMove {
        /// The left analog stick x-axis absolute position.
        left_x: i32,
        /// The left analog stick y-axis absolute position.
        left_y: i32,
        /// The right analog stick x-axis absolute position.
        right_x: i32,
        /// The right analog stick y-axis absolute position.
        right_y: i32,
        /// The TL trigger absolute position, ranging from 0 to 63.
        ///
        /// Many controllers have no analog triggers, in which case this
        /// value is either 0 or 63.
        left_trigger: u8,
        /// The TR trigger absolute position, ranging from 0 to 63.
        ///
        /// Many controllers have no analog triggers, in which case this
        /// value is either 0 or 63.
        right_trigger: u8,
    },
    /// The state of a Nunchuk key changed.
    ///
    /// Received only if the Nunchuk channel is open.
    NunchukKey(NunchukKey, KeyState),
    /// Reports the movement of an analog stick from a Nunchuk.
    ///
    /// Received only if the Nunchuk channel is open.
    NunchukMove {
        /// The x-axis absolute position.
        x: i32,
        /// The y-axis absolute position.
        y: i32,
        /// The x-axis acceleration.
        x_acceleration: i32,
        /// The y-axis acceleration.
        y_acceleration: i32,
    },
    /// The state of a drums controller key changed.
    ///
    /// Received only if the drums channel is open.
    DrumsKey(DrumsKey, KeyState),
    /// Reports the movement of an analog stick from a drums controller.
    ///
    /// The decoder produces no event of this kind: the layout of the
    /// record's pads is not settled.
    DrumsMove {},
    /// The state of a guitar controller key changed.
    ///
    /// Received only if the guitar channel is open.
    GuitarKey(GuitarKey, KeyState),
    /// Reports the movement of an analog stick, the whammy bar, or the
    /// fret bar from a guitar controller.
    ///
    /// The decoder produces no event of this kind.
    GuitarMove {
        /// The x-axis analog stick position.
        x: i32,
        /// The y-axis analog stick position.
        y: i32,
        /// The whammy bar position.
        whammy_bar: i32,
        /// The fret bar absolute position.
        fret_bar: i32,
    },
}

/// The key and the state that a key payload names, or the first code of the
/// two that names nothing.
pub open spec fn decoded_key<T: KeyCode>(data: RawKey) -> Result<(T, KeyState), DecodeError> {
    match T::from_code(data.code) {
        None => Err(DecodeError::UnknownKeyCode(data.code)),
        Some(key) => match KeyState::from_code(data.state) {
            None => Err(DecodeError::UnknownKeyState(data.state)),
            Some(state) => Ok((key, state)),
        },
    }
}

/// The sample slot that holds `source`: its coordinates, or the marker of
/// an empty slot on both axes.
pub open spec fn ir_slot(source: Option<IrSource>) -> RawAbs {
    match source {
        Some(s) => RawAbs { x: s.x, y: s.y, z: 0 },
        None => RawAbs { x: MISSING_SOURCE, y: MISSING_SOURCE, z: 0 },
    }
}

impl EventKind {
    /// The kind of event that a record carries, read off the payload that
    /// its tag selects.
    pub open spec fn decoded(raw: RawEvent) -> Result<EventKind, DecodeError> {
        let abs = raw.abs;
        if raw.tag == EVENT_KEY {
            match decoded_key::<Key>(raw.key) {
                Ok((key, state)) => Ok(EventKind::Key(key, state)),
                Err(e) => Err(e),
            }
        } else if raw.tag == EVENT_ACCEL {
            Ok(EventKind::Accelerometer { x: abs[0].x, y: abs[0].y, z: abs[0].z })
        } else if raw.tag == EVENT_IR {
            Ok(EventKind::Ir(IrSource::sources_of(raw)))
        } else if raw.tag == EVENT_BALANCE_BOARD {
            Ok(EventKind::BalanceBoard([abs[0].x, abs[1].x, abs[2].x, abs[3].x]))
        } else if raw.tag == EVENT_MOTION_PLUS {
            Ok(EventKind::MotionPlus { x: abs[0].x, y: abs[0].y, z: abs[0].z })
        } else if raw.tag == EVENT_PRO_CONTROLLER_KEY {
            match decoded_key::<ProControllerKey>(raw.key) {
                Ok((key, state)) => Ok(EventKind::ProControllerKey(key, state)),
                Err(e) => Err(e),
            }
        } else if raw.tag == EVENT_PRO_CONTROLLER_MOVE {
            Ok(
                EventKind::ProControllerMove {
                    left_x: abs[0].x,
                    left_y: abs[0].y,
                    right_x: abs[1].x,
                    right_y: abs[1].y,
                },
            )
        } else if raw.tag == EVENT_WATCH {
            Ok(EventKind::Other)
        } else if raw.tag == EVENT_CLASSIC_CONTROLLER_KEY {
            match decoded_key::<ClassicControllerKey>(raw.key) {
                Ok((key, state)) => Ok(EventKind::ClassicControllerKey(key, state)),
                Err(e) => Err(e),
            }
        } else if raw.tag == EVENT_CLASSIC_CONTROLLER_MOVE {
            Ok(
                EventKind::ClassicControllerMove {
                    left_x: abs[0].x,
                    left_y: abs[0].y,
                    right_x: abs[1].x,
                    right_y: abs[1].y,
                    left_trigger: abs[2].x as u8,
                    right_trigger: abs[2].y as u8,
                },
            )
        } else if raw.tag == EVENT_NUNCHUK_KEY {
            match decoded_key::<NunchukKey>(raw.key) {
                Ok((key, state)) => Ok(EventKind::NunchukKey(key, state)),
                Err(e) => Err(e),
            }
        } else if raw.tag == EVENT_NUNCHUK_MOVE {
            Ok(
                EventKind::NunchukMove {
                    x: abs[0].x,
                    y: abs[0].y,
                    x_acceleration: abs[1].x,
                    y_acceleration: abs[1].y,
                },
            )
        } else if raw.tag == EVENT_DRUMS_KEY {
            match decoded_key::<DrumsKey>(raw.key) {
                Ok((key, state)) => Ok(EventKind::DrumsKey(key, state)),
                Err(e) => Err(e),
            }
        } else if raw.tag == EVENT_GUITAR_KEY {
            match decoded_key::<GuitarKey>(raw.key) {
                Ok((key, state)) => Ok(EventKind::GuitarKey(key, state)),
                Err(e) => Err(e),
            }
        } else if raw.tag == EVENT_GONE {
            Err(DecodeError::UnexpectedRemoval)
        } else {
            Err(DecodeError::UnexpectedEventType(raw.tag))
        }
    }
}

/// An event received from an open channel to a device.
#[derive(Copy, Clone, Debug, PartialEq, Eq)]
pub struct Event {
    /// The time at which the kernel generated the event.
    pub time: Timestamp,
    /// The event type.
    pub kind: EventKind,
}

impl Event {
    /// The event that a record denotes. A malformed time is reported
    /// before anything that is wrong with the payload.
    pub open spec fn decoded(raw: RawEvent) -> Result<Event, DecodeError> {
        match Timestamp::of(raw.time) {
            None => Err(DecodeError::MalformedTime),
            Some(time) => match EventKind::decoded(raw) {
                Ok(kind) => Ok(Event { time, kind }),
                Err(e) => Err(e),
            },
        }
    }

    /// Decodes a record into an event.
    ///
    /// The record of a removal is no event: it ends the stream that
    /// dispatched it, and is rejected here.
    pub fn parse(raw: &RawEvent) -> (event: Result<Event, DecodeError>)
        ensures
            event == Self::decoded(*raw),
    {
        let time = match Timestamp::from_raw(&raw.time) {
            Some(time) => time,
            None => {
                return Err(DecodeError::MalformedTime);
            },
        };
        let kind = match raw.tag {
            EVENT_KEY => {
                let (key, state) = Self::parse_key::<Key>(raw)?;
                EventKind::Key(key, state)
            },
            EVENT_ACCEL => {
                let acc = raw.abs[0];
                EventKind::Accelerometer { x: acc.x, y: acc.y, z: acc.z }
            },
            EVENT_IR => EventKind::Ir(IrSource::parse(raw)),
            EVENT_BALANCE_BOARD => {
                let weights = &raw.abs;
                EventKind::BalanceBoard([weights[0].x, weights[1].x, weights[2].x, weights[3].x])
            },
            EVENT_MOTION_PLUS => {
                let rot_speed = raw.abs[0];
                EventKind::MotionPlus { x: rot_speed.x, y: rot_speed.y, z: rot_speed.z }
            },
            EVENT_PRO_CONTROLLER_KEY => {
                let (key, state) = Self::parse_key::<ProControllerKey>(raw)?;
                EventKind::ProControllerKey(key, state)
            },
            EVENT_PRO_CONTROLLER_MOVE => {
                let pos = &raw.abs;
                EventKind::ProControllerMove {
                    left_x: pos[0].x,
                    left_y: pos[0].y,
                    right_x: pos[1].x,
                    right_y: pos[1].y,
                }
            },
            EVENT_WATCH => EventKind::Other,
            EVENT_CLASSIC_CONTROLLER_KEY => {
                let (key, state) = Self::parse_key::<ClassicControllerKey>(raw)?;
                EventKind::ClassicControllerKey(key, state)
            },
            EVENT_CLASSIC_CONTROLLER_MOVE => {
                let pos = &raw.abs;
                EventKind::ClassicControllerMove {
                    left_x: pos[0].x,
                    left_y: pos[0].y,
                    right_x: pos[1].x,
                    right_y: pos[1].y,
                    left_trigger: #[verifier::truncate]
                    (pos[2].x as u8),
                    right_trigger: #[verifier::truncate]
                    (pos[2].y as u8),
                }
            },
            EVENT_NUNCHUK_KEY => {
                let (key, state) = Self::parse_key::<NunchukKey>(raw)?;
                EventKind::NunchukKey(key, state)
            },
            EVENT_NUNCHUK_MOVE => {
                let values = &raw.abs;
                EventKind::NunchukMove {
                    x: values[0].x,
                    y: values[0].y,
                    x_acceleration: values[1].x,
                    y_acceleration: values[1].y,
                }
            },
            EVENT_DRUMS_KEY => {
                let (key, state) = Self::parse_key::<DrumsKey>(raw)?;
                EventKind::DrumsKey(key, state)
            },
            EVENT_GUITAR_KEY => {
                let (key, state) = Self::parse_key::<GuitarKey>(raw)?;
                EventKind::GuitarKey(key, state)
            },
            EVENT_GONE => {
                return Err(DecodeError::UnexpectedRemoval);
            },
            type_id => {
                return Err(DecodeError::UnexpectedEventType(type_id));
            },
        };
        Ok(Event { time, kind })
    }

    /// Whether some record denotes this event: its time counts whole
    /// microseconds and fits the record's fields, its kind is one that the
    /// decoder produces, and no IR source lies on the coordinate that marks
    /// an empty slot.
    pub open spec fn encodable(self) -> bool {
        &&& self.time.secs <= i64::MAX
        &&& self.time.nanos < 1_000_000_000
        &&& self.time.nanos % 1000 == 0
        &&& match self.kind {
            EventKind::Ir(sources) => forall|i: int|
                0 <= i < 4 ==> (#[trigger] sources[i] matches Some(s) ==> s.x != MISSING_SOURCE
                    && s.y != MISSING_SOURCE),
            EventKind::DrumsMove {  } => false,
            EventKind::GuitarMove { .. } => false,
            _ => true,
        }
    }

    /// The record that carries this event: the tag of its kind, its fields
    /// in the slots that the kind assigns to them, and zero elsewhere.
    pub open spec fn encoding(self) -> RawEvent {
        let zero = RawAbs { x: 0, y: 0, z: 0 };
        let no_key = RawKey { code: 0, state: 0 };
        let time = RawTime {
            tv_sec: self.time.secs as i64,
            tv_usec: (self.time.nanos / 1000) as i64,
        };
        match self.kind {
            EventKind::Key(key, state) => RawEvent {
                time,
                tag: EVENT_KEY,
                key: RawKey { code: key.code_of(), state: state.code_of() },
                abs: [zero, zero, zero, zero, zero, zero, zero, zero],
            },
            EventKind::Accelerometer { x, y, z } => RawEvent {
                time,
                tag: EVENT_ACCEL,
                key: no_key,
                abs: [RawAbs { x, y, z }, zero, zero, zero, zero, zero, zero, zero],
            },
            EventKind::Ir(sources) => RawEvent {
                time,
                tag: EVENT_IR,
                key: no_key,
                abs: [
                    ir_slot(sources[0]),
                    ir_slot(sources[1]),
                    ir_slot(sources[2]),
                    ir_slot(sources[3]),
                    zero,
                    zero,
                    zero,
                    zero,
                ],
            },
            EventKind::BalanceBoard(weights) => RawEvent {
                time,
                tag: EVENT_BALANCE_BOARD,
                key: no_key,
                abs: [
                    RawAbs { x: weights[0], y: 0, z: 0 },
                    RawAbs { x: weights[1], y: 0, z: 0 },
                    RawAbs { x: weights[2], y: 0, z: 0 },
                    RawAbs { x: weights[3], y: 0, z: 0 },
                    zero,
                    zero,
                    zero,
                    zero,
                ],
            },
            EventKind::MotionPlus { x, y, z } => RawEvent {
                time,
                tag: EVENT_MOTION_PLUS,
                key: no_key,
                abs: [RawAbs { x, y, z }, zero, zero, zero, zero, zero, zero, zero],
            },
            EventKind::ProControllerKey(key, state) => RawEvent {
                time,
                tag: EVENT_PRO_CONTROLLER_KEY,
                key: RawKey { code: key.code_of(), state: state.code_of() },
                abs: [zero, zero, zero, zero, zero, zero, zero, zero],
            },
            EventKind::ProControllerMove { left_x, left_y, right_x, right_y } => RawEvent {
                time,
                tag: EVENT_PRO_CONTROLLER_MOVE,
                key: no_key,
                abs: [
                    RawAbs { x: left_x, y: left_y, z: 0 },
                    RawAbs { x: right_x, y: right_y, z: 0 },
                    zero,
                    zero,
                    zero,
                    zero,
                    zero,
                    zero,
                ],
            },
            EventKind::Other => RawEvent { time, tag: EVENT_WATCH, key: no_key, abs: [zero, zero, zero, zero, zero, zero, zero, zero] },
            EventKind::ClassicControllerKey(key, state) => RawEvent {
                time,
                tag: EVENT_CLASSIC_CONTROLLER_KEY,
                key: RawKey { code: key.code_of(), state: state.code_of() },
                abs: [zero, zero, zero, zero, zero, zero, zero, zero],
            },
            EventKind::ClassicControllerMove {
                left_x,
                left_y,
                right_x,
                right_y,
                left_trigger,
                right_trigger,
            } => RawEvent {
                time,
                tag: EVENT_CLASSIC_CONTROLLER_MOVE,
                key: no_key,
                abs: [
                    RawAbs { x: left_x, y: left_y, z: 0 },
                    RawAbs { x: right_x, y: right_y, z: 0 },
                    RawAbs { x: left_trigger as i32, y: right_trigger as i32, z: 0 },
                    zero,
                    zero,
                    zero,
                    zero,
                    zero,
                ],
            },
            EventKind::NunchukKey(key, state) => RawEvent {
                time,
                tag: EVENT_NUNCHUK_KEY,
                key: RawKey { code: key.code_of(), state: state.code_of() },
                abs: [zero, zero, zero, zero, zero, zero, zero, zero],
            },
            EventKind::NunchukMove { x, y, x_acceleration, y_acceleration } => RawEvent {
                time,
                tag: EVENT_NUNCHUK_MOVE,
                key: no_key,
                abs: [
                    RawAbs { x, y, z: 0 },
                    RawAbs { x: x_acceleration, y: y_acceleration, z: 0 },
                    zero,
                    zero,
                    zero,
                    zero,
                    zero,
                    zero,
                ],
            },
            EventKind::DrumsKey(key, state) => RawEvent {
                time,
                tag: EVENT_DRUMS_KEY,
                key: RawKey { code: key.code_of(), state: state.code_of() },
                abs: [zero, zero, zero, zero, zero, zero, zero, zero],
            },
            EventKind::DrumsMove {  } => RawEvent {
                time,
                tag: EVENT_DRUMS_MOVE,
                key: no_key,
                abs: [zero, zero, zero, zero, zero, zero, zero, zero],
            },
            EventKind::GuitarKey(key, state) => RawEvent {
                time,
                tag: EVENT_GUITAR_KEY,
                key: RawKey { code: key.code_of(), state: state.code_of() },
                abs: [zero, zero, zero, zero, zero, zero, zero, zero],
            },
            EventKind::GuitarMove { x, y, whammy_bar, fret_bar } => RawEvent {
                time,
                tag: EVENT_GUITAR_MOVE,
                key: no_key,
                abs: [
                    RawAbs { x, y, z: 0 },
                    RawAbs { x: whammy_bar, y: 0, z: 0 },
                    RawAbs { x: fret_bar, y: 0, z: 0 },
                    zero,
                    zero,
                    zero,
                    zero,
                    zero,
                ],
            },
        }
    }

    /// Decoding inverts encoding: the record that carries an event decodes
    /// to that event, with every field as it was put in.
    pub proof fn lemma_decode_encoding(event: Event)
        requires
            event.encodable(),
        ensures
            Self::decoded(event.encoding()) == Ok::<Event, DecodeError>(event),
    {
        let raw = event.encoding();
        assert(Timestamp::of(raw.time) == Some(event.time));
        match event.kind {
            EventKind::Key(key, state) => {
                Key::lemma_code_round_trip(key, 0);
                KeyState::lemma_code_round_trip(state, 0);
            },
            EventKind::ProControllerKey(key, state) => {
                ProControllerKey::lemma_code_round_trip(key, 0);
                KeyState::lemma_code_round_trip(state, 0);
            },
            EventKind::ClassicControllerKey(key, state) => {
                ClassicControllerKey::lemma_code_round_trip(key, 0);
                KeyState::lemma_code_round_trip(state, 0);
            },
            EventKind::NunchukKey(key, state) => {
                NunchukKey::lemma_code_round_trip(key, 0);
                KeyState::lemma_code_round_trip(state, 0);
            },
            EventKind::DrumsKey(key, state) => {
                DrumsKey::lemma_code_round_trip(key, 0);
                KeyState::lemma_code_round_trip(state, 0);
            },
            EventKind::GuitarKey(key, state) => {
                GuitarKey::lemma_code_round_trip(key, 0);
                KeyState::lemma_code_round_trip(state, 0);
            },
            EventKind::Ir(sources) => {
                assert(IrSource::sources_of(raw) =~= sources);
            },
            EventKind::BalanceBoard(weights) => {
                assert([raw.abs[0].x, raw.abs[1].x, raw.abs[2].x, raw.abs[3].x] =~= weights);
            },
            EventKind::ClassicControllerMove { left_trigger, right_trigger, .. } => {
                assert(left_trigger as i32 as u8 == left_trigger) by (bit_vector);
                assert(right_trigger as i32 as u8 == right_trigger) by (bit_vector);
            },
            _ => {},
        }
    }

    /// Decodes the key payload of a record into a key of the controller
    /// kind `T` and its state.
    pub fn parse_key<T: KeyCode>(raw: &RawEvent) -> (pair: Result<(T, KeyState), DecodeError>)
        ensures
            pair == decoded_key::<T>(raw.key),
    {
        let data = raw.key;
        let key = match T::from_u32(data.code) {
            Some(key) => key,
            None => {
                return Err(DecodeError::UnknownKeyCode(data.code));
            },
        };
        let state = match KeyState::from_u32(data.state) {
            Some(state) => state,
            None => {
                return Err(DecodeError::UnknownKeyState(data.state));
            },
        };
        Ok((key, state))
    }
}

/// The status with which a dispatch reports that no record is waiting.
pub const PENDING: i32 = -11;

/// Why a stream of events failed.
#[derive(Copy, Clone, Debug, PartialEq, Eq)]
pub enum StreamError {
    /// The dispatch failed with the given status; the device may be
    /// disconnected.
    Dispatch(i32),
    /// The reactor refused to remove the interest of the stream.
    Reactor(ReactorError),
    /// The record that was dispatched denotes no event.
    Decode(DecodeError),
}

/// What a poll of an event stream came to, and what it leaves for the
/// caller to do.
#[derive(Debug)]
pub enum StreamPoll<W> {
    /// The next event of the stream. More records may wait: the caller
    /// polls again before it suspends.
    Event(Event),
    /// The stream failed.
    Failed(StreamError),
    /// The stream had ended before; nothing was dispatched for this poll.
    Finished,
    /// The device is gone and the stream has ended: its interest is
    /// removed, and the caller passes the request to the kernel and invokes
    /// the callback.
    Removed(Removal<W>),
    /// No record is waiting. The callback is stored with the reactor, and
    /// the task suspends until it is invoked.
    Pending,
}

/// What an event stream holds, as contracts speak of it.
pub struct StreamState {
    /// The descriptor of the device.
    pub fd: i32,
    /// Whether the interest of the stream is registered with the reactor.
    /// A stream without interest has ended.
    pub have_interest: bool,
}

impl StreamState {
    /// What a poll answers that dispatched with `status` and, where the
    /// status is zero, received `record`. A stream that has ended answers
    /// so whatever it is handed.
    pub open spec fn poll_result<W>(
        self,
        reactor: ReactorState<W>,
        status: i32,
        record: RawEvent,
    ) -> StreamPoll<W> {
        if !self.have_interest {
            StreamPoll::Finished
        } else if status == 0 {
            if record.tag == EVENT_GONE {
                match reactor.remove_result(self.fd, READ_EVENTS) {
                    Ok(removal) => StreamPoll::Removed(removal),
                    Err(e) => StreamPoll::Failed(StreamError::Reactor(e)),
                }
            } else {
                match Event::decoded(record) {
                    Ok(event) => StreamPoll::Event(event),
                    Err(e) => StreamPoll::Failed(StreamError::Decode(e)),
                }
            }
        } else if status == PENDING {
            StreamPoll::Pending
        } else {
            StreamPoll::Failed(StreamError::Dispatch(status))
        }
    }

    /// The stream after a poll: ended once the record of a removal was
    /// dispatched, and as before otherwise.
    pub open spec fn after_poll(self, status: i32, record: RawEvent) -> Self {
        if self.have_interest && status == 0 && record.tag == EVENT_GONE {
            StreamState { fd: self.fd, have_interest: false }
        } else {
            self
        }
    }

    /// The reactor after a poll: without the interest of the stream once
    /// the record of a removal was dispatched, with `waker` waiting on the
    /// descriptor where no record was waiting, and as before otherwise.
    pub open spec fn reactor_after_poll<W>(
        self,
        reactor: ReactorState<W>,
        waker: W,
        status: i32,
        record: RawEvent,
    ) -> ReactorState<W> {
        if !self.have_interest {
            reactor
        } else if status == 0 {
            if record.tag == EVENT_GONE {
                reactor.after_remove(self.fd, READ_EVENTS)
            } else {
                reactor
            }
        } else if status == PENDING {
            reactor.after_callback(self.fd, waker)
        } else {
            reactor
        }
    }

    /// What the removal of the stream's interest answers: nothing to do
    /// where the stream holds none, and else what the reactor answers.
    pub open spec fn remove_result<W>(self, reactor: ReactorState<W>) -> Result<
        Option<Removal<W>>,
        ReactorError,
    > {
        if self.have_interest {
            match reactor.remove_result(self.fd, READ_EVENTS) {
                Ok(removal) => Ok(Some(removal)),
                Err(e) => Err(e),
            }
        } else {
            Ok(None)
        }
    }

    /// The stream after the removal of its interest: it holds none.
    pub open spec fn after_remove(self) -> Self {
        StreamState { fd: self.fd, have_interest: false }
    }

    /// The reactor after the removal of the stream's interest.
    pub open spec fn reactor_after_remove<W>(self, reactor: ReactorState<W>) -> ReactorState<W> {
        if self.have_interest {
            reactor.after_remove(self.fd, READ_EVENTS)
        } else {
            reactor
        }
    }

    /// The stream after a run of polls, each given by the status of its
    /// dispatch and the record that it received.
    pub open spec fn after_polls(self, polls: Seq<(i32, RawEvent)>) -> Self
        decreases polls.len(),
    {
        if polls.len() == 0 {
            self
        } else {
            self.after_polls(polls.drop_last()).after_poll(polls.last().0, polls.last().1)
        }
    }

    /// Once the record of a removal is dispatched the stream has ended for
    /// good: whatever the polls that follow are handed, the stream stays
    /// ended, and each of them answers that the stream is finished and
    /// leaves the reactor as it is.
    pub proof fn lemma_removal_ends_stream<W>(
        self,
        gone: RawEvent,
        later: Seq<(i32, RawEvent)>,
        reactor: ReactorState<W>,
        waker: W,
        status: i32,
        record: RawEvent,
    )
        requires
            gone.tag == EVENT_GONE,
        ensures
            !self.after_poll(0, gone).have_interest,
            !self.after_poll(0, gone).after_polls(later).have_interest,
            self.after_poll(0, gone).after_polls(later).poll_result(reactor, status, record)
                == StreamPoll::<W>::Finished,
            self.after_poll(0, gone).after_polls(later).reactor_after_poll(
                reactor,
                waker,
                status,
                record,
            ) == reactor,
        decreases later.len(),
    {
        if later.len() > 0 {
            self.lemma_removal_ends_stream(
                gone,
                later.drop_last(),
                reactor,
                waker,
                later.last().0,
                later.last().1,
            );
        }
    }

    /// Whether the reactor holds the interest that the stream counts on:
    /// a stream that has not ended is registered with its descriptor.
    pub open spec fn registered_in<W>(self, reactor: ReactorState<W>) -> bool {
        self.have_interest ==> self.fd >= 0 && reactor.interests.contains(self.fd)
    }

    /// A stream that was started on a reactor stays registered with it
    /// through every poll, as long as nothing else removes its interest.
    /// So the removal of its interest cannot fail, neither when the
    /// record of a removal is dispatched nor when the stream is given up.
    pub proof fn lemma_removal_never_fails<W>(
        self,
        reactor: ReactorState<W>,
        waker: W,
        status: i32,
        record: RawEvent,
    )
        requires
            self.registered_in(reactor),
        ensures
            self.after_poll(status, record).registered_in(
                self.reactor_after_poll(reactor, waker, status, record),
            ),
            self.remove_result(reactor) is Ok,
            !(self.poll_result(reactor, status, record) matches StreamPoll::Failed(
                StreamError::Reactor(_),
            )),
            self.after_remove().registered_in(self.reactor_after_remove(reactor)),
    {
    }

    /// A stream gives up its interest once: a removal that follows another
    /// has nothing to do, fails in no state of the reactor, and leaves the
    /// reactor as it is.
    pub proof fn lemma_second_removal_is_noop<W>(self, reactor: ReactorState<W>)
        ensures
            self.after_remove().remove_result(reactor) == Ok::<Option<Removal<W>>, ReactorError>(
                None,
            ),
            self.after_remove().reactor_after_remove(reactor) == reactor,
            self.after_remove().after_remove() == self.after_remove(),
    {
    }
}

/// Watches for events from a device.
///
/// The kinds of streamed events depend on the channels that are open on
/// the device. See the description of each [`EventKind`] variant for the
/// channel needed to receive events of that kind.
///
/// A stream dispatches nothing itself. The caller dispatches on the device
/// while [`EventStream::is_terminated`] is false, and hands the status and
/// the record to [`EventStream::poll_next`].
#[derive(Debug)]
pub struct EventStream {
    fd: i32,
    // Whether the interest is currently registered. Used to prevent a
    // second removal when the stream is dropped.
    have_interest: bool,
}

impl View for EventStream {
    type V = StreamState;

    closed spec fn view(&self) -> StreamState {
        StreamState { fd: self.fd, have_interest: self.have_interest }
    }
}

impl EventStream {
    /// Creates a new stream over the events of the device with the
    /// descriptor `fd`, and registers its interest in the descriptor so
    /// that tasks can wait for records. On success the caller passes the
    /// request to the kernel.
    pub fn try_new<W>(fd: i32, blocker: &mut IoBlocker<W>) -> (stream: Result<
        (EventStream, CtlRequest),
        ReactorError,
    >)
        ensures
            match old(blocker)@.add_result(fd, READ_EVENTS) {
                Ok(request) => stream matches Ok((s, r)) && r == request && s@ == (StreamState {
                    fd,
                    have_interest: true,
                }),
                Err(e) => stream matches Err(why) && why == e,
            },
            final(blocker)@ == old(blocker)@.after_add(fd, READ_EVENTS),
            old(blocker)@.wf() ==> final(blocker)@.wf(),
            stream matches Ok((s, _)) ==> s@.registered_in(final(blocker)@),
    {
        let request = blocker.add_interest(fd, read_events())?;
        Ok((EventStream { fd, have_interest: true }, request))
    }

    /// The descriptor of the device.
    pub fn fd(&self) -> (fd: i32)
        ensures
            fd == self@.fd,
    {
        self.fd
    }

    /// Tells whether the stream has ended. No record is dispatched for a
    /// stream that has.
    pub fn is_terminated(&self) -> (ended: bool)
        ensures
            ended == !self@.have_interest,
    {
        !self.have_interest
    }

    /// Removes the interest of the stream, if it still holds one, and with
    /// that ends the stream. This is what remains to do for a stream that
    /// is given up before its device is gone.
    pub fn remove_interest<W>(&mut self, blocker: &mut IoBlocker<W>) -> (removal: Result<
        Option<Removal<W>>,
        ReactorError,
    >)
        ensures
            removal == old(self)@.remove_result(old(blocker)@),
            final(self)@ == old(self)@.after_remove(),
            final(blocker)@ == old(self)@.reactor_after_remove(old(blocker)@),
            old(blocker)@.wf() ==> final(blocker)@.wf(),
    {
        if self.have_interest {
            self.have_interest = false;
            match blocker.remove_interest(self.fd, read_events()) {
                Ok(removal) => Ok(Some(removal)),
                Err(e) => Err(e),
            }
        } else {
            Ok(None)
        }
    }

    /// Takes the stream one step on: `status` is what the dispatch on the
    /// device returned, and `record` what it received where the status is
    /// zero. `waker` is the callback of the task that polls; it is stored
    /// only where the task has to wait.
    pub fn poll_next<W>(
        &mut self,
        blocker: &mut IoBlocker<W>,
        waker: W,
        status: i32,
        record: &RawEvent,
    ) -> (poll: StreamPoll<W>)
        ensures
            poll == old(self)@.poll_result(old(blocker)@, status, *record),
            final(self)@ == old(self)@.after_poll(status, *record),
            final(blocker)@ == old(self)@.reactor_after_poll(old(blocker)@, waker, status, *record),
            old(blocker)@.wf() ==> final(blocker)@.wf(),
    {
        if !self.have_interest {
            // No record is read once the device is gone.
            return StreamPoll::Finished;
        }
        let pending = -eagain();
        if status == 0 {
            if record.tag == EVENT_GONE {
                // The device was closed. No more events are coming.
                match self.remove_interest(blocker) {
                    Ok(Some(removal)) => StreamPoll::Removed(removal),
                    Ok(None) => StreamPoll::Finished,
                    Err(why) => StreamPoll::Failed(StreamError::Reactor(why)),
                }
            } else {
                match Event::parse(record) {
                    Ok(event) => StreamPoll::Event(event),
                    Err(why) => StreamPoll::Failed(StreamError::Decode(why)),
                }
            }
        } else if status == pending {
            // No event is available: have the task woken once one is.
            blocker.set_callback(self.fd, waker);
            StreamPoll::Pending
        } else {
            // Failure, perhaps the device was disconnected.
            StreamPoll::Failed(StreamError::Dispatch(status))
        }
    }
}

} // verus!
