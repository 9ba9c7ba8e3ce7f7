//! Mouse intents and their six-byte frames.
//!
//! A frame is `[0x00, X high, X low, Y high, Y low, scroll]`. The scroll byte
//! packs the wheel and the buttons: bit 7 is the wheel direction, bits 6 to 4
//! its magnitude, bit 3 is always set, bit 2 is the middle button, bit 1 the
//! right button and bit 0 the left button.

use vstd::prelude::*;

verus! {

/// Which way the wheel turns.
#[derive(Clone, Copy, Debug, PartialEq, Eq, Structural)]
pub enum ScrollDirection {
    Up,
    Down,
}

/// How far the wheel turns, in eight steps.
#[derive(Clone, Copy, Debug, PartialEq, Eq, Structural)]
pub enum ScrollMagnitude {
    Seven,
    Six,
    Five,
    Four,
    Three,
    Two,
    One,
    Zero,
}

/// One thing the mouse can be asked to do.
#[derive(Clone, Copy, Debug, PartialEq, Eq, Structural)]
pub enum MouseAction {
    /// Move the pointer to the given X and Y.
    Move(u16, u16),
    LeftClick,
    MiddleClick,
    RightClick,
    Scroll(ScrollDirection, ScrollMagnitude),
}

impl ScrollDirection {
    /// The direction as it sits in the scroll byte: bit 7 set for up.
    pub open spec fn bits(self) -> u8 {
        match self {
            ScrollDirection::Up => 0x80,
            ScrollDirection::Down => 0x00,
        }
    }

    /// Computes [`Self::bits`].
    pub fn to_bits(&self) -> (bits: u8)
        ensures
            bits == self.bits(),
    {
        match self {
            ScrollDirection::Up => 0x80,
            ScrollDirection::Down => 0x00,
        }
    }

    /// Reads a direction back from its bits; any other byte is refused.
    pub fn from_bits(bits: u8) -> (direction: Option<ScrollDirection>)
        ensures
            match direction {
                Some(d) => d.bits() == bits,
                None => bits != 0x80 && bits != 0x00,
            },
    {
        if bits == 0x80 {
            Some(ScrollDirection::Up)
        } else if bits == 0x00 {
            Some(ScrollDirection::Down)
        } else {
            None
        }
    }
}

impl ScrollMagnitude {
    /// The number of steps, from 0 to 7.
    pub open spec fn level(self) -> nat {
        match self {
            ScrollMagnitude::Seven => 7,
            ScrollMagnitude::Six => 6,
            ScrollMagnitude::Five => 5,
            ScrollMagnitude::Four => 4,
            ScrollMagnitude::Three => 3,
            ScrollMagnitude::Two => 2,
            ScrollMagnitude::One => 1,
            ScrollMagnitude::Zero => 0,
        }
    }

    /// The magnitude as it sits in the scroll byte: the level in bits 6 to 4.
    pub open spec fn bits(self) -> u8 {
        (16 * self.level()) as u8
    }

    /// Computes [`Self::bits`].
    pub fn to_bits(&self) -> (bits: u8)
        ensures
            bits == self.bits(),
    {
        match self {
            ScrollMagnitude::Seven => 0x70,
            ScrollMagnitude::Six => 0x60,
            ScrollMagnitude::Five => 0x50,
            ScrollMagnitude::Four => 0x40,
            ScrollMagnitude::Three => 0x30,
            ScrollMagnitude::Two => 0x20,
            ScrollMagnitude::One => 0x10,
            ScrollMagnitude::Zero => 0x00,
        }
    }

    /// Reads a magnitude back from its bits; a byte with any bit set outside
    /// bits 6 to 4 is refused.
    pub fn from_bits(bits: u8) -> (magnitude: Option<ScrollMagnitude>)
        ensures
            match magnitude {
                Some(m) => m.bits() == bits,
                None => bits % 16 != 0 || bits > 0x70,
            },
    {
        match bits {
            0x70 => Some(ScrollMagnitude::Seven),
            0x60 => Some(ScrollMagnitude::Six),
            0x50 => Some(ScrollMagnitude::Five),
            0x40 => Some(ScrollMagnitude::Four),
            0x30 => Some(ScrollMagnitude::Three),
            0x20 => Some(ScrollMagnitude::Two),
            0x10 => Some(ScrollMagnitude::One),
            0x00 => Some(ScrollMagnitude::Zero),
            _ => None,
        }
    }
}

/// The value a button adds to the scroll byte while it is held.
pub open spec fn flag(held: bool, weight: int) -> int {
    if held {
        weight
    } else {
        0
    }
}

/// The scroll byte for a wheel setting and the three buttons.
///
/// The fields occupy different bits, so the byte is their sum.
pub open spec fn scroll_byte(
    direction: ScrollDirection,
    magnitude: ScrollMagnitude,
    left: bool,
    middle: bool,
    right: bool,
) -> u8 {
    (direction.bits() + magnitude.bits() + 8 + flag(middle, 4) + flag(right, 2) + flag(
        left,
        1,
    )) as u8
}

/// The scroll byte of a mouse at rest: wheel up by zero, no button held.
pub open spec fn idle_scroll_byte() -> u8 {
    scroll_byte(ScrollDirection::Up, ScrollMagnitude::Zero, false, false, false)
}

/// One frame: a zero byte, X and Y high byte first, then the scroll byte.
pub open spec fn frame(x: u16, y: u16, scroll: u8) -> Seq<u8> {
    seq![0u8, (x / 256) as u8, (x % 256) as u8, (y / 256) as u8, (y % 256) as u8, scroll]
}

/// The two frames of a click: the buttons as given, then all let go. Both
/// leave the pointer fields at zero.
pub open spec fn click_frames(left: bool, middle: bool, right: bool) -> Seq<u8> {
    frame(0, 0, scroll_byte(ScrollDirection::Up, ScrollMagnitude::Zero, left, middle, right))
        + frame(0, 0, idle_scroll_byte())
}

impl MouseAction {
    /// The bytes that carry this action to the device.
    ///
    /// A move and a scroll are one frame. A click is two, because the device
    /// knows only button-down and button-up.
    pub open spec fn packet_bytes(self) -> Seq<u8> {
        match self {
            MouseAction::Move(x, y) => frame(x, y, idle_scroll_byte()),
            MouseAction::LeftClick => click_frames(true, false, false),
            MouseAction::MiddleClick => click_frames(false, true, false),
            MouseAction::RightClick => click_frames(false, false, true),
            MouseAction::Scroll(direction, magnitude) => frame(
                0,
                0,
                scroll_byte(direction, magnitude, false, false, false),
            ),
        }
    }

    /// Encodes the action.
    pub fn as_packet(self) -> (packet: Vec<u8>)
        ensures
            packet@ == self.packet_bytes(),
    {
        match self {
            MouseAction::Move(x, y) => Self::create_packet(
                x,
                y,
                Self::create_scroll_byte(
                    ScrollDirection::Up,
                    ScrollMagnitude::Zero,
                    false,
                    false,
                    false,
                ),
            ),
            MouseAction::LeftClick | MouseAction::MiddleClick | MouseAction::RightClick => {
                Self::click(self)
            },
            MouseAction::Scroll(direction, magnitude) => Self::create_packet(
                0,
                0,
                Self::create_scroll_byte(direction, magnitude, false, false, false),
            ),
        }
    }

    /// The press frame and the release frame for `button`. An action that is
    /// no click holds no button, so both its frames are at rest.
    pub fn click(button: Self) -> (packet: Vec<u8>)
        ensures
            packet@ == click_frames(
                button is LeftClick,
                button is MiddleClick,
                button is RightClick,
            ),
    {
        let mut packet = Self::create_packet(
            0,
            0,
            Self::create_scroll_byte(
                ScrollDirection::Up,
                ScrollMagnitude::Zero,
                matches!(button, MouseAction::LeftClick),
                matches!(button, MouseAction::MiddleClick),
                matches!(button, MouseAction::RightClick),
            ),
        );
        let mut rest = Self::create_packet(
            0,
            0,
            Self::create_scroll_byte(
                ScrollDirection::Up,
                ScrollMagnitude::Zero,
                false,
                false,
                false,
            ),
        );
        packet.append(&mut rest);
        packet
    }

    /// Packs the wheel and the buttons into the scroll byte.
    pub fn create_scroll_byte(
        direction: ScrollDirection,
        magnitude: ScrollMagnitude,
        left: bool,
        middle: bool,
        right: bool,
    ) -> (scroll: u8)
        ensures
            scroll == scroll_byte(direction, magnitude, left, middle, right),
    {
        let d: u8 = direction.to_bits();
        let m: u8 = magnitude.to_bits();
        let mi: u8 = if middle { 1 } else { 0 };
        let r: u8 = if right { 1 } else { 0 };
        let l: u8 = if left { 1 } else { 0 };
        assert(d | m | 0b00001000 | (mi << 2) | (r << 1) | l == d + m + 8 + 4 * mi + 2 * r + l)
            by (bit_vector)
            requires
                d == 0x80 || d == 0x00,
                m % 16 == 0,
                m <= 0x70,
                mi <= 1,
                r <= 1,
                l <= 1,
        ;
        d | m | 0b00001000 | (mi << 2) | (r << 1) | l
    }

    /// Lays out one frame.
    pub fn create_packet(x: u16, y: u16, scroll: u8) -> (packet: Vec<u8>)
        ensures
            packet@ == frame(x, y, scroll),
    {
        let (xms, xls) = split_point(x);
        let (yms, yls) = split_point(y);
        vec![0x00, xms, xls, yms, yls, scroll]
    }
}

/// Splits a coordinate into its high and its low byte.
fn split_point(point: u16) -> (halves: (u8, u8))
    ensures
        halves.0 == point / 256,
        halves.1 == point % 256,
{
    assert(point >> 8 == point / 256 && point & 0xff == point % 256) by (bit_vector);
    ((point >> 8) as u8, (point & 0xff) as u8)
}

/// Every field of the scroll byte can be read back from its own bits: the
/// direction from bit 7, the magnitude from bits 6 to 4, the middle, right and
/// left buttons from bits 2, 1 and 0. Bit 3 is always set.
pub proof fn scroll_byte_layout(
    direction: ScrollDirection,
    magnitude: ScrollMagnitude,
    left: bool,
    middle: bool,
    right: bool,
)
    ensures
        ({
            let scroll = scroll_byte(direction, magnitude, left, middle, right);
            &&& scroll & 0x80 == direction.bits()
            &&& scroll & 0x70 == magnitude.bits()
            &&& (scroll >> 4) & 0x07 == magnitude.level()
            &&& scroll & 0x08 == 0x08
            &&& (scroll & 0x04 != 0) == middle
            &&& (scroll & 0x02 != 0) == right
            &&& (scroll & 0x01 != 0) == left
        }),
{
    let scroll = scroll_byte(direction, magnitude, left, middle, right);
    let d: u8 = direction.bits();
    let v: u8 = magnitude.level() as u8;
    let mi: u8 = if middle { 1 } else { 0 };
    let r: u8 = if right { 1 } else { 0 };
    let l: u8 = if left { 1 } else { 0 };
    assert(scroll == d + 16 * v + 8 + 4 * mi + 2 * r + l);
    assert({
        &&& scroll & 0x80 == d
        &&& scroll & 0x70 == 16 * v
        &&& (scroll >> 4) & 0x07 == v
        &&& scroll & 0x08 == 0x08
        &&& (scroll & 0x04 != 0) == (mi == 1)
        &&& (scroll & 0x02 != 0) == (r == 1)
        &&& (scroll & 0x01 != 0) == (l == 1)
    }) by (bit_vector)
        requires
            scroll == d + 16 * v + 8 + 4 * mi + 2 * r + l,
            d == 0x80 || d == 0x00,
            v <= 7,
            mi <= 1,
            r <= 1,
            l <= 1,
    ;
}

/// A frame has six bytes, starts with zero, and holds X and Y high byte
/// first, so that both can be read back.
pub proof fn frame_layout(x: u16, y: u16, scroll: u8)
    ensures
        frame(x, y, scroll).len() == 6,
        frame(x, y, scroll)[0] == 0,
        256 * frame(x, y, scroll)[1] + frame(x, y, scroll)[2] == x,
        256 * frame(x, y, scroll)[3] + frame(x, y, scroll)[4] == y,
        frame(x, y, scroll)[5] == scroll,
{
}

/// A packet is one frame or two, and each frame `k` of it starts with zero
/// and has bit 3 of its scroll byte set.
pub proof fn packet_is_whole_frames(action: MouseAction, k: int)
    requires
        0 <= k,
        6 * k < action.packet_bytes().len(),
    ensures
        action.packet_bytes().len() == 6 || action.packet_bytes().len() == 12,
        action.packet_bytes()[6 * k] == 0,
        action.packet_bytes()[6 * k + 5] & 0x08 == 0x08,
{
    scroll_byte_layout(ScrollDirection::Up, ScrollMagnitude::Zero, false, false, false);
    match action {
        MouseAction::Move(x, y) => {},
        MouseAction::LeftClick => {
            scroll_byte_layout(ScrollDirection::Up, ScrollMagnitude::Zero, true, false, false);
        },
        MouseAction::MiddleClick => {
            scroll_byte_layout(ScrollDirection::Up, ScrollMagnitude::Zero, false, true, false);
        },
        MouseAction::RightClick => {
            scroll_byte_layout(ScrollDirection::Up, ScrollMagnitude::Zero, false, false, true);
        },
        MouseAction::Scroll(direction, magnitude) => {
            scroll_byte_layout(direction, magnitude, false, false, false);
        },
    }
    assert(k == 0 || k == 1);
}

/// A click is twelve bytes: a frame with the button held and nothing else,
/// then a frame at rest. The pointer fields of both are zero.
pub proof fn click_is_press_then_release(left: bool, middle: bool, right: bool)
    ensures
        click_frames(left, middle, right) == seq![
            0u8,
            0u8,
            0u8,
            0u8,
            0u8,
            (0x88 + flag(middle, 4) + flag(right, 2) + flag(left, 1)) as u8,
            0u8,
            0u8,
            0u8,
            0u8,
            0u8,
            0x88u8,
        ],
{
}

} // verus!
