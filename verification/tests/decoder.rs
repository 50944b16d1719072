use xwiimote::event::DecodeError;
use xwiimote::event::Event;
use xwiimote::event::EventKind;
use xwiimote::event::IrSource;
use xwiimote::event::RawAbs;
use xwiimote::event::RawEvent;
use xwiimote::event::RawKey;
use xwiimote::event::RawTime;
use xwiimote::event::Timestamp;
use xwiimote::event::EVENT_ACCEL;
use xwiimote::event::EVENT_BALANCE_BOARD;
use xwiimote::event::EVENT_CLASSIC_CONTROLLER_KEY;
use xwiimote::event::EVENT_CLASSIC_CONTROLLER_MOVE;
use xwiimote::event::EVENT_DRUMS_KEY;
use xwiimote::event::EVENT_DRUMS_MOVE;
use xwiimote::event::EVENT_GONE;
use xwiimote::event::EVENT_GUITAR_KEY;
use xwiimote::event::EVENT_GUITAR_MOVE;
use xwiimote::event::EVENT_IR;
use xwiimote::event::EVENT_KEY;
use xwiimote::event::EVENT_MOTION_PLUS;
use xwiimote::event::EVENT_NUNCHUK_KEY;
use xwiimote::event::EVENT_NUNCHUK_MOVE;
use xwiimote::event::EVENT_PRO_CONTROLLER_KEY;
use xwiimote::event::EVENT_PRO_CONTROLLER_MOVE;
use xwiimote::event::EVENT_WATCH;
use xwiimote::key::ClassicControllerKey;
use xwiimote::key::DrumsKey;
use xwiimote::key::GuitarKey;
use xwiimote::key::Key;
use xwiimote::key::KeyState;
use xwiimote::key::NunchukKey;
use xwiimote::key::ProControllerKey;

fn slot(x: i32, y: i32, z: i32) -> RawAbs {
    RawAbs { x, y, z }
}

fn record(tag: u32, key: (u32, u32), abs: &[RawAbs]) -> RawEvent {
    let mut slots = [slot(0, 0, 0); 8];
    for (ix, value) in abs.iter().enumerate() {
        slots[ix] = *value;
    }
    RawEvent {
        time: RawTime { tv_sec: 1_600_000_000, tv_usec: 250_000 },
        tag,
        key: RawKey { code: key.0, state: key.1 },
        abs: slots,
    }
}

fn at_record_time(kind: EventKind) -> Result<Event, DecodeError> {
    Ok(Event { time: Timestamp { secs: 1_600_000_000, nanos: 250_000_000 }, kind })
}

#[test]
fn decodes_the_time_of_a_record() {
    let mut raw = record(EVENT_WATCH, (0, 0), &[]);
    raw.time = RawTime { tv_sec: 5, tv_usec: 7 };
    let event = Event::parse(&raw).unwrap();
    assert_eq!(event.time, Timestamp { secs: 5, nanos: 7000 });
    raw.time = RawTime { tv_sec: 0, tv_usec: 999_999 };
    assert_eq!(Event::parse(&raw).unwrap().time, Timestamp { secs: 0, nanos: 999_999_000 });
    assert_eq!(Timestamp::from_raw(&raw.time), Some(Timestamp { secs: 0, nanos: 999_999_000 }));
}

#[test]
fn rejects_a_malformed_time() {
    let mut raw = record(EVENT_WATCH, (0, 0), &[]);
    raw.time = RawTime { tv_sec: -1, tv_usec: 0 };
    assert_eq!(Event::parse(&raw), Err(DecodeError::MalformedTime));
    raw.time = RawTime { tv_sec: 1, tv_usec: -1 };
    assert_eq!(Event::parse(&raw), Err(DecodeError::MalformedTime));
    raw.time = RawTime { tv_sec: 1, tv_usec: 1_000_000 };
    assert_eq!(Event::parse(&raw), Err(DecodeError::MalformedTime));
    assert_eq!(Timestamp::from_raw(&raw.time), None);
}

#[test]
fn a_malformed_time_is_reported_before_the_payload() {
    let mut raw = record(EVENT_KEY, (99, 99), &[]);
    raw.time = RawTime { tv_sec: -3, tv_usec: 0 };
    assert_eq!(Event::parse(&raw), Err(DecodeError::MalformedTime));
}

#[test]
fn decodes_remote_keys() {
    let raw = record(EVENT_KEY, (9, 1), &[]);
    assert_eq!(Event::parse(&raw), at_record_time(EventKind::Key(Key::One, KeyState::Down)));
    let raw = record(EVENT_KEY, (0, 0), &[]);
    assert_eq!(Event::parse(&raw), at_record_time(EventKind::Key(Key::Left, KeyState::Up)));
    let raw = record(EVENT_KEY, (8, 2), &[]);
    assert_eq!(Event::parse(&raw), at_record_time(EventKind::Key(Key::Home, KeyState::AutoRepeat)));
}

#[test]
fn the_tag_chooses_the_key_enumeration() {
    // Code 8 is the home button of a remote and the star power button of
    // a guitar.
    let raw = record(EVENT_KEY, (8, 1), &[]);
    assert_eq!(Event::parse(&raw), at_record_time(EventKind::Key(Key::Home, KeyState::Down)));
    let raw = record(EVENT_GUITAR_KEY, (8, 1), &[]);
    assert_eq!(
        Event::parse(&raw),
        at_record_time(EventKind::GuitarKey(GuitarKey::StarPower, KeyState::Down))
    );
    let raw = record(EVENT_PRO_CONTROLLER_KEY, (8, 1), &[]);
    assert_eq!(
        Event::parse(&raw),
        at_record_time(EventKind::ProControllerKey(ProControllerKey::Home, KeyState::Down))
    );
    // Code 8 names no key of a Nunchuk or of the drums.
    let raw = record(EVENT_NUNCHUK_KEY, (8, 1), &[]);
    assert_eq!(Event::parse(&raw), Err(DecodeError::UnknownKeyCode(8)));
    let raw = record(EVENT_DRUMS_KEY, (8, 1), &[]);
    assert_eq!(Event::parse(&raw), Err(DecodeError::UnknownKeyCode(8)));
}

#[test]
fn decodes_extension_keys() {
    let raw = record(EVENT_PRO_CONTROLLER_KEY, (18, 0), &[]);
    assert_eq!(
        Event::parse(&raw),
        at_record_time(EventKind::ProControllerKey(ProControllerKey::RightThumb, KeyState::Up))
    );
    let raw = record(EVENT_CLASSIC_CONTROLLER_KEY, (16, 1), &[]);
    assert_eq!(
        Event::parse(&raw),
        at_record_time(EventKind::ClassicControllerKey(ClassicControllerKey::ZR, KeyState::Down))
    );
    let raw = record(EVENT_NUNCHUK_KEY, (19, 2), &[]);
    assert_eq!(
        Event::parse(&raw),
        at_record_time(EventKind::NunchukKey(NunchukKey::C, KeyState::AutoRepeat))
    );
    let raw = record(EVENT_DRUMS_KEY, (7, 1), &[]);
    assert_eq!(
        Event::parse(&raw),
        at_record_time(EventKind::DrumsKey(DrumsKey::Minus, KeyState::Down))
    );
    let raw = record(EVENT_GUITAR_KEY, (27, 1), &[]);
    assert_eq!(
        Event::parse(&raw),
        at_record_time(EventKind::GuitarKey(GuitarKey::LowestFretBar, KeyState::Down))
    );
}

#[test]
fn rejects_unknown_key_codes() {
    let raw = record(EVENT_KEY, (11, 1), &[]);
    assert_eq!(Event::parse(&raw), Err(DecodeError::UnknownKeyCode(11)));
    let raw = record(EVENT_CLASSIC_CONTROLLER_KEY, (17, 1), &[]);
    assert_eq!(Event::parse(&raw), Err(DecodeError::UnknownKeyCode(17)));
    let raw = record(EVENT_GUITAR_KEY, (22, 1), &[]);
    assert_eq!(Event::parse(&raw), Err(DecodeError::UnknownKeyCode(22)));
    let raw = record(EVENT_PRO_CONTROLLER_KEY, (9, 1), &[]);
    assert_eq!(Event::parse(&raw), Err(DecodeError::UnknownKeyCode(9)));
}

#[test]
fn rejects_unknown_key_states() {
    let raw = record(EVENT_KEY, (4, 3), &[]);
    assert_eq!(Event::parse(&raw), Err(DecodeError::UnknownKeyState(3)));
    // The code is looked at first.
    let raw = record(EVENT_KEY, (40, 3), &[]);
    assert_eq!(Event::parse(&raw), Err(DecodeError::UnknownKeyCode(40)));
}

#[test]
fn parse_key_reads_the_key_payload() {
    let raw = record(EVENT_ACCEL, (20, 1), &[slot(1, 2, 3)]);
    assert_eq!(Event::parse_key::<NunchukKey>(&raw), Ok((NunchukKey::Z, KeyState::Down)));
    assert_eq!(Event::parse_key::<Key>(&raw), Err(DecodeError::UnknownKeyCode(20)));
    assert_eq!(Event::parse_key::<KeyState>(&raw), Err(DecodeError::UnknownKeyCode(20)));
}

#[test]
fn decodes_accelerometer_and_motion_plus() {
    let raw = record(EVENT_ACCEL, (0, 0), &[slot(-12, 34, 5600)]);
    assert_eq!(
        Event::parse(&raw),
        at_record_time(EventKind::Accelerometer { x: -12, y: 34, z: 5600 })
    );
    let raw = record(EVENT_MOTION_PLUS, (0, 0), &[slot(i32::MIN, 0, i32::MAX)]);
    assert_eq!(
        Event::parse(&raw),
        at_record_time(EventKind::MotionPlus { x: i32::MIN, y: 0, z: i32::MAX })
    );
}

#[test]
fn decodes_ir_sources_by_slot() {
    let raw = record(EVENT_IR, (0, 0), &[slot(100, 200, 0), slot(1023, 1023, 0)]);
    let event = Event::parse(&raw).unwrap();
    match event.kind {
        EventKind::Ir(sources) => {
            assert_eq!(sources[0], Some(IrSource { x: 100, y: 200 }));
            assert_eq!(sources[1], None);
            assert_eq!(sources[2], Some(IrSource { x: 0, y: 0 }));
            assert_eq!(sources[3], Some(IrSource { x: 0, y: 0 }));
        }
        other => panic!("not an IR event: {:?}", other),
    }
}

#[test]
fn an_ir_slot_is_empty_if_either_axis_says_so() {
    let raw = record(
        EVENT_IR,
        (0, 0),
        &[slot(1023, 7, 0), slot(7, 1023, 0), slot(1022, 1022, 0), slot(1023, 1023, 0), slot(5, 5, 0)],
    );
    assert_eq!(
        IrSource::parse(&raw),
        [None, None, Some(IrSource { x: 1022, y: 1022 }), None]
    );
    assert_eq!(
        Event::parse(&raw),
        at_record_time(EventKind::Ir([None, None, Some(IrSource { x: 1022, y: 1022 }), None]))
    );
}

#[test]
fn decodes_balance_board_weights() {
    let raw = record(
        EVENT_BALANCE_BOARD,
        (0, 0),
        &[slot(10, 1, 1), slot(20, 2, 2), slot(30, 3, 3), slot(40, 4, 4), slot(50, 5, 5)],
    );
    assert_eq!(Event::parse(&raw), at_record_time(EventKind::BalanceBoard([10, 20, 30, 40])));
}

#[test]
fn decodes_stick_movements() {
    let raw = record(EVENT_PRO_CONTROLLER_MOVE, (0, 0), &[slot(1, 2, 9), slot(3, 4, 9)]);
    assert_eq!(
        Event::parse(&raw),
        at_record_time(EventKind::ProControllerMove { left_x: 1, left_y: 2, right_x: 3, right_y: 4 })
    );
    let raw = record(EVENT_NUNCHUK_MOVE, (0, 0), &[slot(-1, -2, 9), slot(-3, -4, 9)]);
    assert_eq!(
        Event::parse(&raw),
        at_record_time(EventKind::NunchukMove {
            x: -1,
            y: -2,
            x_acceleration: -3,
            y_acceleration: -4
        })
    );
    let raw =
        record(EVENT_CLASSIC_CONTROLLER_MOVE, (0, 0), &[slot(1, 2, 9), slot(3, 4, 9), slot(0, 63, 9)]);
    assert_eq!(
        Event::parse(&raw),
        at_record_time(EventKind::ClassicControllerMove {
            left_x: 1,
            left_y: 2,
            right_x: 3,
            right_y: 4,
            left_trigger: 0,
            right_trigger: 63
        })
    );
}

#[test]
fn classic_triggers_keep_their_low_byte() {
    let raw = record(
        EVENT_CLASSIC_CONTROLLER_MOVE,
        (0, 0),
        &[slot(0, 0, 0), slot(0, 0, 0), slot(256 + 5, -1, 0)],
    );
    assert_eq!(
        Event::parse(&raw),
        at_record_time(EventKind::ClassicControllerMove {
            left_x: 0,
            left_y: 0,
            right_x: 0,
            right_y: 0,
            left_trigger: 5,
            right_trigger: 255
        })
    );
}

#[test]
fn decodes_the_state_changed_marker() {
    let raw = record(EVENT_WATCH, (3, 3), &[slot(1, 1, 1)]);
    assert_eq!(Event::parse(&raw), at_record_time(EventKind::Other));
}

#[test]
fn a_removal_is_no_event() {
    let raw = record(EVENT_GONE, (0, 0), &[]);
    assert_eq!(Event::parse(&raw), Err(DecodeError::UnexpectedRemoval));
}

#[test]
fn rejects_tags_without_a_decoder() {
    let raw = record(EVENT_DRUMS_MOVE, (0, 0), &[]);
    assert_eq!(Event::parse(&raw), Err(DecodeError::UnexpectedEventType(13)));
    let raw = record(EVENT_GUITAR_MOVE, (0, 0), &[]);
    assert_eq!(Event::parse(&raw), Err(DecodeError::UnexpectedEventType(15)));
    let raw = record(17, (0, 0), &[]);
    assert_eq!(Event::parse(&raw), Err(DecodeError::UnexpectedEventType(17)));
    let raw = record(u32::MAX, (0, 0), &[]);
    assert_eq!(Event::parse(&raw), Err(DecodeError::UnexpectedEventType(u32::MAX)));
}

#[test]
fn record_tags_count_from_zero() {
    let tags = [
        EVENT_KEY,
        EVENT_ACCEL,
        EVENT_IR,
        EVENT_BALANCE_BOARD,
        EVENT_MOTION_PLUS,
        EVENT_PRO_CONTROLLER_KEY,
        EVENT_PRO_CONTROLLER_MOVE,
        EVENT_WATCH,
        EVENT_CLASSIC_CONTROLLER_KEY,
        EVENT_CLASSIC_CONTROLLER_MOVE,
        EVENT_NUNCHUK_KEY,
        EVENT_NUNCHUK_MOVE,
        EVENT_DRUMS_KEY,
        EVENT_DRUMS_MOVE,
        EVENT_GUITAR_KEY,
        EVENT_GUITAR_MOVE,
        EVENT_GONE,
    ];
    for (ix, tag) in tags.iter().enumerate() {
        assert_eq!(*tag as usize, ix);
    }
}
