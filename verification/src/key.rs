//! Key enumerations, one per controller and extension kind, and the key
//! codes that the kernel reports for them.
//!
//! Every enumeration covers a subset of one shared code space, so the same
//! code may name a variant in several of them (code 8 is `Home` on a Wii
//! Remote and `StarPower` on a guitar). Which enumeration applies is decided
//! by the kind of the record that carries the code, never by the code.

use vstd::prelude::*;

verus! {

/// A key enumeration whose variants are named by numeric codes.
pub trait KeyCode: Sized {
    /// The code that names `self`.
    spec fn code_of(self) -> u32;

    /// The variant named by `code`, if there is one.
    spec fn from_code(code: u32) -> Option<Self>;

    /// Looks up the variant named by `code`.
    fn from_u32(code: u32) -> (key: Option<Self>)
        ensures
            key == Self::from_code(code),
    ;

    /// Returns the code that names `self`.
    fn code(self) -> (code: u32)
        ensures
            code == self.code_of(),
    ;

    /// Codes and variants correspond one to one: a variant is found again
    /// from its code, and a code that names a variant is that variant's code.
    proof fn lemma_code_round_trip(key: Self, code: u32)
        ensures
            Self::from_code(key.code_of()) == Some(key),
            Self::from_code(code) == Some(key) ==> key.code_of() == code,
    ;
}

/// The keys of a Wii Remote.
#[derive(Copy, Clone, Debug, PartialEq, Eq, Hash)]
pub enum Key {
    /// Left directional pad button.
    Left,
    /// Right directional pad button.
    Right,
    /// Up directional pad button.
    Up,
    /// Down directional pad button.
    Down,
    /// A button.
    A,
    /// B button.
    B,
    /// Plus (+) button.
    Plus,
    /// Minus (-) button.
    Minus,
    /// Home button.
    Home,
    /// 1 button.
    One,
    /// 2 button.
    Two,
}

impl KeyCode for Key {
    open spec fn code_of(self) -> u32 {
        match self {
            Key::Left => 0,
            Key::Right => 1,
            Key::Up => 2,
            Key::Down => 3,
            Key::A => 4,
            Key::B => 5,
            Key::Plus => 6,
            Key::Minus => 7,
            Key::Home => 8,
            Key::One => 9,
            Key::Two => 10,
        }
    }

    open spec fn from_code(code: u32) -> Option<Self> {
        match code {
            0 => Some(Key::Left),
            1 => Some(Key::Right),
            2 => Some(Key::Up),
            3 => Some(Key::Down),
            4 => Some(Key::A),
            5 => Some(Key::B),
            6 => Some(Key::Plus),
            7 => Some(Key::Minus),
            8 => Some(Key::Home),
            9 => Some(Key::One),
            10 => Some(Key::Two),
            _ => None,
        }
    }

    fn from_u32(code: u32) -> (key: Option<Self>) {
        match code {
            0 => Some(Key::Left),
            1 => Some(Key::Right),
            2 => Some(Key::Up),
            3 => Some(Key::Down),
            4 => Some(Key::A),
            5 => Some(Key::B),
            6 => Some(Key::Plus),
            7 => Some(Key::Minus),
            8 => Some(Key::Home),
            9 => Some(Key::One),
            10 => Some(Key::Two),
            _ => None,
        }
    }

    fn code(self) -> (code: u32) {
        match self {
            Key::Left => 0,
            Key::Right => 1,
            Key::Up => 2,
            Key::Down => 3,
            Key::A => 4,
            Key::B => 5,
            Key::Plus => 6,
            Key::Minus => 7,
            Key::Home => 8,
            Key::One => 9,
            Key::Two => 10,
        }
    }

    proof fn lemma_code_round_trip(key: Self, code: u32) {
    }
}

/// The keys of a Wii U Pro controller.
#[derive(Copy, Clone, Debug, PartialEq, Eq, Hash)]
pub enum ProControllerKey {
    /// Left directional pad button.
    Left,
    /// Right directional pad button.
    Right,
    /// Up directional pad button.
    Up,
    /// Down directional pad button.
    Down,
    /// A button.
    A,
    /// B button.
    B,
    /// Plus (+) button.
    Plus,
    /// Minus (-) button.
    Minus,
    /// Home button.
    Home,
    /// X button.
    X,
    /// Y button.
    Y,
    /// TL button.
    TL,
    /// TR button.
    TR,
    /// ZL button.
    ZL,
    /// ZR button.
    ZR,
    /// Left thumb button.
    ///
    /// Reported if the left analog stick is pressed.
    LeftThumb,
    /// Right thumb button.
    ///
    /// Reported if the right analog stick is pressed.
    RightThumb,
}

impl KeyCode for ProControllerKey {
    open spec fn code_of(self) -> u32 {
        match self {
            ProControllerKey::Left => 0,
            ProControllerKey::Right => 1,
            ProControllerKey::Up => 2,
            ProControllerKey::Down => 3,
            ProControllerKey::A => 4,
            ProControllerKey::B => 5,
            ProControllerKey::Plus => 6,
            ProControllerKey::Minus => 7,
            ProControllerKey::Home => 8,
            ProControllerKey::X => 11,
            ProControllerKey::Y => 12,
            ProControllerKey::TL => 13,
            ProControllerKey::TR => 14,
            ProControllerKey::ZL => 15,
            ProControllerKey::ZR => 16,
            ProControllerKey::LeftThumb => 17,
            ProControllerKey::RightThumb => 18,
        }
    }

    open spec fn from_code(code: u32) -> Option<Self> {
        match code {
            0 => Some(ProControllerKey::Left),
            1 => Some(ProControllerKey::Right),
            2 => Some(ProControllerKey::Up),
            3 => Some(ProControllerKey::Down),
            4 => Some(ProControllerKey::A),
            5 => Some(ProControllerKey::B),
            6 => Some(ProControllerKey::Plus),
            7 => Some(ProControllerKey::Minus),
            8 => Some(ProControllerKey::Home),
            11 => Some(ProControllerKey::X),
            12 => Some(ProControllerKey::Y),
            13 => Some(ProControllerKey::TL),
            14 => Some(ProControllerKey::TR),
            15 => Some(ProControllerKey::ZL),
            16 => Some(ProControllerKey::ZR),
            17 => Some(ProControllerKey::LeftThumb),
            18 => Some(ProControllerKey::RightThumb),
            _ => None,
        }
    }

    fn from_u32(code: u32) -> (key: Option<Self>) {
        match code {
            0 => Some(ProControllerKey::Left),
            1 => Some(ProControllerKey::Right),
            2 => Some(ProControllerKey::Up),
            3 => Some(ProControllerKey::Down),
            4 => Some(ProControllerKey::A),
            5 => Some(ProControllerKey::B),
            6 => Some(ProControllerKey::Plus),
            7 => Some(ProControllerKey::Minus),
            8 => Some(ProControllerKey::Home),
            11 => Some(ProControllerKey::X),
            12 => Some(ProControllerKey::Y),
            13 => Some(ProControllerKey::TL),
            14 => Some(ProControllerKey::TR),
            15 => Some(ProControllerKey::ZL),
            16 => Some(ProControllerKey::ZR),
            17 => Some(ProControllerKey::LeftThumb),
            18 => Some(ProControllerKey::RightThumb),
            _ => None,
        }
    }

    fn code(self) -> (code: u32) {
        match self {
            ProControllerKey::Left => 0,
            ProControllerKey::Right => 1,
            ProControllerKey::Up => 2,
            ProControllerKey::Down => 3,
            ProControllerKey::A => 4,
            ProControllerKey::B => 5,
            ProControllerKey::Plus => 6,
            ProControllerKey::Minus => 7,
            ProControllerKey::Home => 8,
            ProControllerKey::X => 11,
            ProControllerKey::Y => 12,
            ProControllerKey::TL => 13,
            ProControllerKey::TR => 14,
            ProControllerKey::ZL => 15,
            ProControllerKey::ZR => 16,
            ProControllerKey::LeftThumb => 17,
            ProControllerKey::RightThumb => 18,
        }
    }

    proof fn lemma_code_round_trip(key: Self, code: u32) {
    }
}

/// The keys of a Classic controller.
#[derive(Copy, Clone, Debug, PartialEq, Eq, Hash)]
pub enum ClassicControllerKey {
    /// Left directional pad button.
    Left,
    /// Right directional pad button.
    Right,
    /// Up directional pad button.
    Up,
    /// Down directional pad button.
    Down,
    /// A button.
    A,
    /// B button.
    B,
    /// Plus (+) button.
    Plus,
    /// Minus (-) button.
    Minus,
    /// Home button.
    Home,
    /// X button.
    X,
    /// Y button.
    Y,
    /// TL button.
    TL,
    /// TR button.
    TR,
    /// ZL button.
    ZL,
    /// ZR button.
    ZR,
}

impl KeyCode for ClassicControllerKey {
    open spec fn code_of(self) -> u32 {
        match self {
            ClassicControllerKey::Left => 0,
            ClassicControllerKey::Right => 1,
            ClassicControllerKey::Up => 2,
            ClassicControllerKey::Down => 3,
            ClassicControllerKey::A => 4,
            ClassicControllerKey::B => 5,
            ClassicControllerKey::Plus => 6,
            ClassicControllerKey::Minus => 7,
            ClassicControllerKey::Home => 8,
            ClassicControllerKey::X => 11,
            ClassicControllerKey::Y => 12,
            ClassicControllerKey::TL => 13,
            ClassicControllerKey::TR => 14,
            ClassicControllerKey::ZL => 15,
            ClassicControllerKey::ZR => 16,
        }
    }

    open spec fn from_code(code: u32) -> Option<Self> {
        match code {
            0 => Some(ClassicControllerKey::Left),
            1 => Some(ClassicControllerKey::Right),
            2 => Some(ClassicControllerKey::Up),
            3 => Some(ClassicControllerKey::Down),
            4 => Some(ClassicControllerKey::A),
            5 => Some(ClassicControllerKey::B),
            6 => Some(ClassicControllerKey::Plus),
            7 => Some(ClassicControllerKey::Minus),
            8 => Some(ClassicControllerKey::Home),
            11 => Some(ClassicControllerKey::X),
            12 => Some(ClassicControllerKey::Y),
            13 => Some(ClassicControllerKey::TL),
            14 => Some(ClassicControllerKey::TR),
            15 => Some(ClassicControllerKey::ZL),
            16 => Some(ClassicControllerKey::ZR),
            _ => None,
        }
    }

    fn from_u32(code: u32) -> (key: Option<Self>) {
        match code {
            0 => Some(ClassicControllerKey::Left),
            1 => Some(ClassicControllerKey::Right),
            2 => Some(ClassicControllerKey::Up),
            3 => Some(ClassicControllerKey::Down),
            4 => Some(ClassicControllerKey::A),
            5 => Some(ClassicControllerKey::B),
            6 => Some(ClassicControllerKey::Plus),
            7 => Some(ClassicControllerKey::Minus),
            8 => Some(ClassicControllerKey::Home),
            11 => Some(ClassicControllerKey::X),
            12 => Some(ClassicControllerKey::Y),
            13 => Some(ClassicControllerKey::TL),
            14 => Some(ClassicControllerKey::TR),
            15 => Some(ClassicControllerKey::ZL),
            16 => Some(ClassicControllerKey::ZR),
            _ => None,
        }
    }

    fn code(self) -> (code: u32) {
        match self {
            ClassicControllerKey::Left => 0,
            ClassicControllerKey::Right => 1,
            ClassicControllerKey::Up => 2,
            ClassicControllerKey::Down => 3,
            ClassicControllerKey::A => 4,
            ClassicControllerKey::B => 5,
            ClassicControllerKey::Plus => 6,
            ClassicControllerKey::Minus => 7,
            ClassicControllerKey::Home => 8,
            ClassicControllerKey::X => 11,
            ClassicControllerKey::Y => 12,
            ClassicControllerKey::TL => 13,
            ClassicControllerKey::TR => 14,
            ClassicControllerKey::ZL => 15,
            ClassicControllerKey::ZR => 16,
        }
    }

    proof fn lemma_code_round_trip(key: Self, code: u32) {
    }
}

/// The keys of a Nunchuk.
///
/// This is the only extension without the plus and minus buttons.
#[derive(Copy, Clone, Debug, PartialEq, Eq, Hash)]
pub enum NunchukKey {
    /// C button.
    C,
    /// Z button.
    Z,
}

impl KeyCode for NunchukKey {
    open spec fn code_of(self) -> u32 {
        match self {
            NunchukKey::C => 19,
            NunchukKey::Z => 20,
        }
    }

    open spec fn from_code(code: u32) -> Option<Self> {
        match code {
            19 => Some(NunchukKey::C),
            20 => Some(NunchukKey::Z),
            _ => None,
        }
    }

    fn from_u32(code: u32) -> (key: Option<Self>) {
        match code {
            19 => Some(NunchukKey::C),
            20 => Some(NunchukKey::Z),
            _ => None,
        }
    }

    fn code(self) -> (code: u32) {
        match self {
            NunchukKey::C => 19,
            NunchukKey::Z => 20,
        }
    }

    proof fn lemma_code_round_trip(key: Self, code: u32) {
    }
}

/// The keys of a drums controller.
#[derive(Copy, Clone, Debug, PartialEq, Eq, Hash)]
pub enum DrumsKey {
    /// Plus (+) button.
    Plus,
    /// Minus (-) button.
    Minus,
}

impl KeyCode for DrumsKey {
    open spec fn code_of(self) -> u32 {
        match self {
            DrumsKey::Plus => 6,
            DrumsKey::Minus => 7,
        }
    }

    open spec fn from_code(code: u32) -> Option<Self> {
        match code {
            6 => Some(DrumsKey::Plus),
            7 => Some(DrumsKey::Minus),
            _ => None,
        }
    }

    fn from_u32(code: u32) -> (key: Option<Self>) {
        match code {
            6 => Some(DrumsKey::Plus),
            7 => Some(DrumsKey::Minus),
            _ => None,
        }
    }

    fn code(self) -> (code: u32) {
        match self {
            DrumsKey::Plus => 6,
            DrumsKey::Minus => 7,
        }
    }

    proof fn lemma_code_round_trip(key: Self, code: u32) {
    }
}

/// The keys of a guitar controller.
#[derive(Copy, Clone, Debug, PartialEq, Eq, Hash)]
pub enum GuitarKey {
    /// Plus (+) button.
    Plus,
    /// Minus (-) button.
    Minus,
    /// The StarPower/Home button. It shares its code with [`Key::Home`].
    StarPower,
    /// The guitar strum bar.
    StrumBar,
    /// The guitar upper-most fret button.
    HighestFretBar,
    /// The guitar second-upper fret button.
    HighFretBar,
    /// The guitar mid fret button.
    MidFretBar,
    /// The guitar second-lowest fret button.
    LowFretBar,
    /// The guitar lowest fret button.
    LowestFretBar,
}

impl KeyCode for GuitarKey {
    open spec fn code_of(self) -> u32 {
        match self {
            GuitarKey::Plus => 6,
            GuitarKey::Minus => 7,
            GuitarKey::StarPower => 8,
            GuitarKey::StrumBar => 21,
            GuitarKey::HighestFretBar => 23,
            GuitarKey::HighFretBar => 24,
            GuitarKey::MidFretBar => 25,
            GuitarKey::LowFretBar => 26,
            GuitarKey::LowestFretBar => 27,
        }
    }

    open spec fn from_code(code: u32) -> Option<Self> {
        match code {
            6 => Some(GuitarKey::Plus),
            7 => Some(GuitarKey::Minus),
            8 => Some(GuitarKey::StarPower),
            21 => Some(GuitarKey::StrumBar),
            23 => Some(GuitarKey::HighestFretBar),
            24 => Some(GuitarKey::HighFretBar),
            25 => Some(GuitarKey::MidFretBar),
            26 => Some(GuitarKey::LowFretBar),
            27 => Some(GuitarKey::LowestFretBar),
            _ => None,
        }
    }

    fn from_u32(code: u32) -> (key: Option<Self>) {
        match code {
            6 => Some(GuitarKey::Plus),
            7 => Some(GuitarKey::Minus),
            8 => Some(GuitarKey::StarPower),
            21 => Some(GuitarKey::StrumBar),
            23 => Some(GuitarKey::HighestFretBar),
            24 => Some(GuitarKey::HighFretBar),
            25 => Some(GuitarKey::MidFretBar),
            26 => Some(GuitarKey::LowFretBar),
            27 => Some(GuitarKey::LowestFretBar),
            _ => None,
        }
    }

    fn code(self) -> (code: u32) {
        match self {
            GuitarKey::Plus => 6,
            GuitarKey::Minus => 7,
            GuitarKey::StarPower => 8,
            GuitarKey::StrumBar => 21,
            GuitarKey::HighestFretBar => 23,
            GuitarKey::HighFretBar => 24,
            GuitarKey::MidFretBar => 25,
            GuitarKey::LowFretBar => 26,
            GuitarKey::LowestFretBar => 27,
        }
    }

    proof fn lemma_code_round_trip(key: Self, code: u32) {
    }
}

/// The state of a key.
#[derive(Copy, Clone, Debug, PartialEq, Eq, Hash)]
pub enum KeyState {
    /// The key is released.
    Up,
    /// The key is held down.
    Down,
    /// The key is held down, and was reported as so in the previous event
    /// for the same key.
    AutoRepeat,
}

impl KeyCode for KeyState {
    open spec fn code_of(self) -> u32 {
        match self {
            KeyState::Up => 0,
            KeyState::Down => 1,
            KeyState::AutoRepeat => 2,
        }
    }

    open spec fn from_code(code: u32) -> Option<Self> {
        match code {
            0 => Some(KeyState::Up),
            1 => Some(KeyState::Down),
            2 => Some(KeyState::AutoRepeat),
            _ => None,
        }
    }

    fn from_u32(code: u32) -> (key: Option<Self>) {
        match code {
            0 => Some(KeyState::Up),
            1 => Some(KeyState::Down),
            2 => Some(KeyState::AutoRepeat),
            _ => None,
        }
    }

    fn code(self) -> (code: u32) {
        match self {
            KeyState::Up => 0,
            KeyState::Down => 1,
            KeyState::AutoRepeat => 2,
        }
    }

    proof fn lemma_code_round_trip(key: Self, code: u32) {
    }
}

} // verus!
