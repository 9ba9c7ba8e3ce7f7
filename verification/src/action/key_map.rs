//! The closed set of keys and the byte each one sends on press and release.

use vstd::prelude::*;

verus! {

/// A physical key of the emulated keyboard.
#[derive(Clone, Copy, Debug, PartialEq, Eq, Hash, Structural)]
pub enum KeyCode {
    One,
    Two,
    Three,
    Four,
    Five,
    Six,
    Seven,
    Eight,
    Nine,
    Zero,
    A,
    B,
    C,
    D,
    E,
    F,
    G,
    H,
    I,
    J,
    K,
    L,
    M,
    N,
    O,
    P,
    Q,
    R,
    S,
    T,
    U,
    V,
    W,
    X,
    Y,
    Z,
    Tilde,
    Space,
    Dash,
    Equal,
    LBracket,
    RBracket,
    BackSlash,
    SemiColon,
    Quote,
    Comma,
    Period,
    ForwardSlash,
    BackSpace,
    Tab,
    Caps,
    Enter,
    Shift,
    Control,
    Alt,
    Super,
    Escape,
    Left,
    Up,
    Down,
    Right,
    F1,
    F2,
    F3,
    F4,
    F5,
    F6,
    F7,
    F8,
    F9,
    F10,
    F11,
    F12,
}

impl KeyCode {
    /// The byte that signals this key going down.
    pub open spec fn press_code(self) -> u8 {
        match self {
            KeyCode::One => 2,
            KeyCode::Two => 3,
            KeyCode::Three => 4,
            KeyCode::Four => 5,
            KeyCode::Five => 6,
            KeyCode::Six => 7,
            KeyCode::Seven => 8,
            KeyCode::Eight => 9,
            KeyCode::Nine => 10,
            KeyCode::Zero => 11,
            KeyCode::A => 31,
            KeyCode::B => 50,
            KeyCode::C => 48,
            KeyCode::D => 33,
            KeyCode::E => 19,
            KeyCode::F => 34,
            KeyCode::G => 35,
            KeyCode::H => 36,
            KeyCode::I => 24,
            KeyCode::J => 37,
            KeyCode::K => 38,
            KeyCode::L => 39,
            KeyCode::M => 52,
            KeyCode::N => 51,
            KeyCode::O => 25,
            KeyCode::P => 26,
            KeyCode::Q => 17,
            KeyCode::R => 20,
            KeyCode::S => 32,
            KeyCode::T => 21,
            KeyCode::U => 23,
            KeyCode::V => 49,
            KeyCode::W => 18,
            KeyCode::X => 47,
            KeyCode::Y => 22,
            KeyCode::Z => 46,
            KeyCode::Tilde => 1,
            KeyCode::Space => 61,
            KeyCode::Dash => 12,
            KeyCode::Equal => 13,
            KeyCode::LBracket => 27,
            KeyCode::RBracket => 28,
            KeyCode::BackSlash => 29,
            KeyCode::SemiColon => 40,
            KeyCode::Quote => 41,
            KeyCode::Comma => 53,
            KeyCode::Period => 54,
            KeyCode::ForwardSlash => 55,
            KeyCode::BackSpace => 15,
            KeyCode::Tab => 16,
            KeyCode::Caps => 30,
            KeyCode::Enter => 43,
            KeyCode::Shift => 44,
            KeyCode::Control => 58,
            KeyCode::Alt => 60,
            KeyCode::Super => 70,
            KeyCode::Escape => 110,
            KeyCode::Left => 79,
            KeyCode::Up => 83,
            KeyCode::Down => 84,
            KeyCode::Right => 89,
            KeyCode::F1 => 112,
            KeyCode::F2 => 113,
            KeyCode::F3 => 114,
            KeyCode::F4 => 115,
            KeyCode::F5 => 116,
            KeyCode::F6 => 117,
            KeyCode::F7 => 118,
            KeyCode::F8 => 119,
            KeyCode::F9 => 120,
            KeyCode::F10 => 121,
            KeyCode::F11 => 122,
            KeyCode::F12 => 123,
        }
    }

    /// The byte that signals this key coming up: the press byte with the top
    /// bit set.
    pub open spec fn release_code(self) -> u8 {
        (self.press_code() + 128) as u8
    }

    /// The (press, release) pair of this key. Every key has one; the table is
    /// fixed.
    pub fn lookup(&self) -> (codes: (u8, u8))
        ensures
            codes.0 == self.press_code(),
            codes.1 == self.release_code(),
    {
        match self {
            KeyCode::One => (2, 130),
            KeyCode::Two => (3, 131),
            KeyCode::Three => (4, 132),
            KeyCode::Four => (5, 133),
            KeyCode::Five => (6, 134),
            KeyCode::Six => (7, 135),
            KeyCode::Seven => (8, 136),
            KeyCode::Eight => (9, 137),
            KeyCode::Nine => (10, 138),
            KeyCode::Zero => (11, 139),
            KeyCode::A => (31, 159),
            KeyCode::B => (50, 178),
            KeyCode::C => (48, 176),
            KeyCode::D => (33, 161),
            KeyCode::E => (19, 147),
            KeyCode::F => (34, 162),
            KeyCode::G => (35, 163),
            KeyCode::H => (36, 164),
            KeyCode::I => (24, 152),
            KeyCode::J => (37, 165),
            KeyCode::K => (38, 166),
            KeyCode::L => (39, 167),
            KeyCode::M => (52, 180),
            KeyCode::N => (51, 179),
            KeyCode::O => (25, 153),
            KeyCode::P => (26, 154),
            KeyCode::Q => (17, 145),
            KeyCode::R => (20, 148),
            KeyCode::S => (32, 160),
            KeyCode::T => (21, 149),
            KeyCode::U => (23, 151),
            KeyCode::V => (49, 177),
            KeyCode::W => (18, 146),
            KeyCode::X => (47, 175),
            KeyCode::Y => (22, 150),
            KeyCode::Z => (46, 174),
            KeyCode::Tilde => (1, 129),
            KeyCode::Space => (61, 189),
            KeyCode::Dash => (12, 140),
            KeyCode::Equal => (13, 141),
            KeyCode::LBracket => (27, 155),
            KeyCode::RBracket => (28, 156),
            KeyCode::BackSlash => (29, 157),
            KeyCode::SemiColon => (40, 168),
            KeyCode::Quote => (41, 169),
            KeyCode::Comma => (53, 181),
            KeyCode::Period => (54, 182),
            KeyCode::ForwardSlash => (55, 183),
            KeyCode::BackSpace => (15, 143),
            KeyCode::Tab => (16, 144),
            KeyCode::Caps => (30, 158),
            KeyCode::Enter => (43, 171),
            KeyCode::Shift => (44, 172),
            KeyCode::Control => (58, 186),
            KeyCode::Alt => (60, 188),
            KeyCode::Super => (70, 198),
            KeyCode::Escape => (110, 238),
            KeyCode::Left => (79, 207),
            KeyCode::Up => (83, 211),
            KeyCode::Down => (84, 212),
            KeyCode::Right => (89, 217),
            KeyCode::F1 => (112, 240),
            KeyCode::F2 => (113, 241),
            KeyCode::F3 => (114, 242),
            KeyCode::F4 => (115, 243),
            KeyCode::F5 => (116, 244),
            KeyCode::F6 => (117, 245),
            KeyCode::F7 => (118, 246),
            KeyCode::F8 => (119, 247),
            KeyCode::F9 => (120, 248),
            KeyCode::F10 => (121, 249),
            KeyCode::F11 => (122, 250),
            KeyCode::F12 => (123, 251),
        }
    }

    /// The place of this key in the list of keys, counted from zero. A caller
    /// that cannot name keys numbers them this way.
    pub open spec fn index(self) -> u8 {
        match self {
            KeyCode::One => 0,
            KeyCode::Two => 1,
            KeyCode::Three => 2,
            KeyCode::Four => 3,
            KeyCode::Five => 4,
            KeyCode::Six => 5,
            KeyCode::Seven => 6,
            KeyCode::Eight => 7,
            KeyCode::Nine => 8,
            KeyCode::Zero => 9,
            KeyCode::A => 10,
            KeyCode::B => 11,
            KeyCode::C => 12,
            KeyCode::D => 13,
            KeyCode::E => 14,
            KeyCode::F => 15,
            KeyCode::G => 16,
            KeyCode::H => 17,
            KeyCode::I => 18,
            KeyCode::J => 19,
            KeyCode::K => 20,
            KeyCode::L => 21,
            KeyCode::M => 22,
            KeyCode::N => 23,
            KeyCode::O => 24,
            KeyCode::P => 25,
            KeyCode::Q => 26,
            KeyCode::R => 27,
            KeyCode::S => 28,
            KeyCode::T => 29,
            KeyCode::U => 30,
            KeyCode::V => 31,
            KeyCode::W => 32,
            KeyCode::X => 33,
            KeyCode::Y => 34,
            KeyCode::Z => 35,
            KeyCode::Tilde => 36,
            KeyCode::Space => 37,
            KeyCode::Dash => 38,
            KeyCode::Equal => 39,
            KeyCode::LBracket => 40,
            KeyCode::RBracket => 41,
            KeyCode::BackSlash => 42,
            KeyCode::SemiColon => 43,
            KeyCode::Quote => 44,
            KeyCode::Comma => 45,
            KeyCode::Period => 46,
            KeyCode::ForwardSlash => 47,
            KeyCode::BackSpace => 48,
            KeyCode::Tab => 49,
            KeyCode::Caps => 50,
            KeyCode::Enter => 51,
            KeyCode::Shift => 52,
            KeyCode::Control => 53,
            KeyCode::Alt => 54,
            KeyCode::Super => 55,
            KeyCode::Escape => 56,
            KeyCode::Left => 57,
            KeyCode::Up => 58,
            KeyCode::Down => 59,
            KeyCode::Right => 60,
            KeyCode::F1 => 61,
            KeyCode::F2 => 62,
            KeyCode::F3 => 63,
            KeyCode::F4 => 64,
            KeyCode::F5 => 65,
            KeyCode::F6 => 66,
            KeyCode::F7 => 67,
            KeyCode::F8 => 68,
            KeyCode::F9 => 69,
            KeyCode::F10 => 70,
            KeyCode::F11 => 71,
            KeyCode::F12 => 72,
        }
    }

    /// The key at a place in the list of keys, or `None` past its end.
    pub fn from_index(index: u8) -> (key: Option<KeyCode>)
        ensures
            match key {
                Some(k) => k.index() == index,
                None => index >= 73,
            },
    {
        match index {
            0 => Some(KeyCode::One),
            1 => Some(KeyCode::Two),
            2 => Some(KeyCode::Three),
            3 => Some(KeyCode::Four),
            4 => Some(KeyCode::Five),
            5 => Some(KeyCode::Six),
            6 => Some(KeyCode::Seven),
            7 => Some(KeyCode::Eight),
            8 => Some(KeyCode::Nine),
            9 => Some(KeyCode::Zero),
            10 => Some(KeyCode::A),
            11 => Some(KeyCode::B),
            12 => Some(KeyCode::C),
            13 => Some(KeyCode::D),
            14 => Some(KeyCode::E),
            15 => Some(KeyCode::F),
            16 => Some(KeyCode::G),
            17 => Some(KeyCode::H),
            18 => Some(KeyCode::I),
            19 => Some(KeyCode::J),
            20 => Some(KeyCode::K),
            21 => Some(KeyCode::L),
            22 => Some(KeyCode::M),
            23 => Some(KeyCode::N),
            24 => Some(KeyCode::O),
            25 => Some(KeyCode::P),
            26 => Some(KeyCode::Q),
            27 => Some(KeyCode::R),
            28 => Some(KeyCode::S),
            29 => Some(KeyCode::T),
            30 => Some(KeyCode::U),
            31 => Some(KeyCode::V),
            32 => Some(KeyCode::W),
            33 => Some(KeyCode::X),
            34 => Some(KeyCode::Y),
            35 => Some(KeyCode::Z),
            36 => Some(KeyCode::Tilde),
            37 => Some(KeyCode::Space),
            38 => Some(KeyCode::Dash),
            39 => Some(KeyCode::Equal),
            40 => Some(KeyCode::LBracket),
            41 => Some(KeyCode::RBracket),
            42 => Some(KeyCode::BackSlash),
            43 => Some(KeyCode::SemiColon),
            44 => Some(KeyCode::Quote),
            45 => Some(KeyCode::Comma),
            46 => Some(KeyCode::Period),
            47 => Some(KeyCode::ForwardSlash),
            48 => Some(KeyCode::BackSpace),
            49 => Some(KeyCode::Tab),
            50 => Some(KeyCode::Caps),
            51 => Some(KeyCode::Enter),
            52 => Some(KeyCode::Shift),
            53 => Some(KeyCode::Control),
            54 => Some(KeyCode::Alt),
            55 => Some(KeyCode::Super),
            56 => Some(KeyCode::Escape),
            57 => Some(KeyCode::Left),
            58 => Some(KeyCode::Up),
            59 => Some(KeyCode::Down),
            60 => Some(KeyCode::Right),
            61 => Some(KeyCode::F1),
            62 => Some(KeyCode::F2),
            63 => Some(KeyCode::F3),
            64 => Some(KeyCode::F4),
            65 => Some(KeyCode::F5),
            66 => Some(KeyCode::F6),
            67 => Some(KeyCode::F7),
            68 => Some(KeyCode::F8),
            69 => Some(KeyCode::F9),
            70 => Some(KeyCode::F10),
            71 => Some(KeyCode::F11),
            72 => Some(KeyCode::F12),
            _ => None,
        }
    }
}

/// Numbering the keys loses nothing: every key has a number below 73 of its
/// own.
pub proof fn indices_are_distinct(a: KeyCode, b: KeyCode)
    ensures
        a.index() < 73,
        a.index() == b.index() ==> a == b,
{
}

/// Two different keys never share a press byte.
pub proof fn press_codes_are_distinct(a: KeyCode, b: KeyCode)
    requires
        a != b,
    ensures
        a.press_code() != b.press_code(),
{
}

/// Two different keys never share a release byte.
pub proof fn release_codes_are_distinct(a: KeyCode, b: KeyCode)
    requires
        a != b,
    ensures
        a.release_code() != b.release_code(),
{
}

/// Press bytes lie below 128 and release bytes at or above it, so no byte is
/// both a press and a release, and none is zero.
pub proof fn press_and_release_ranges(key: KeyCode)
    ensures
        1 <= key.press_code() <= 123,
        129 <= key.release_code() <= 251,
        key.release_code() == key.press_code() + 128,
{
}

/// The flush byte is reserved: no key sends it, pressed or released.
pub proof fn codes_avoid_flush(key: KeyCode)
    ensures
        key.press_code() != crate::FLUSH,
        key.release_code() != crate::FLUSH,
{
}

} // verus!
