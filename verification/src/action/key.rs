//! Turning key sequences and text into the bytes the device reads.
//!
//! A key stream has no framing: the device follows press and release bytes
//! one by one. Typed text presses and releases each key in turn; a chord
//! presses all its keys in order and lets them go in reverse.

use vstd::prelude::*;

use crate::action::key_map::KeyCode;
use crate::error::Error;

verus! {

/// Typed text: each key is pressed and released before the next one.
pub open spec fn text_bytes(keys: Seq<KeyCode>) -> Seq<u8> {
    Seq::new(
        2 * keys.len(),
        |i: int|
            if i % 2 == 0 {
                keys[i / 2].press_code()
            } else {
                keys[i / 2].release_code()
            },
    )
}

/// A chord: every key pressed in the order given, then every key released,
/// the last one pressed first.
pub open spec fn chord_bytes(keys: Seq<KeyCode>) -> Seq<u8> {
    Seq::new(
        2 * keys.len(),
        |i: int|
            if i < keys.len() {
                keys[i].press_code()
            } else {
                keys[2 * keys.len() - 1 - i].release_code()
            },
    )
}

/// The key that gives `c` with no modifier held.
pub open spec fn plain_key(c: char) -> Option<KeyCode> {
    match c {
        '1' => Some(KeyCode::One),
        '2' => Some(KeyCode::Two),
        '3' => Some(KeyCode::Three),
        '4' => Some(KeyCode::Four),
        '5' => Some(KeyCode::Five),
        '6' => Some(KeyCode::Six),
        '7' => Some(KeyCode::Seven),
        '8' => Some(KeyCode::Eight),
        '9' => Some(KeyCode::Nine),
        '0' => Some(KeyCode::Zero),
        '-' => Some(KeyCode::Dash),
        '=' => Some(KeyCode::Equal),
        'a' => Some(KeyCode::A),
        'b' => Some(KeyCode::B),
        'c' => Some(KeyCode::C),
        'd' => Some(KeyCode::D),
        'e' => Some(KeyCode::E),
        'f' => Some(KeyCode::F),
        'g' => Some(KeyCode::G),
        'h' => Some(KeyCode::H),
        'i' => Some(KeyCode::I),
        'j' => Some(KeyCode::J),
        'k' => Some(KeyCode::K),
        'l' => Some(KeyCode::L),
        'm' => Some(KeyCode::M),
        'n' => Some(KeyCode::N),
        'o' => Some(KeyCode::O),
        'p' => Some(KeyCode::P),
        'q' => Some(KeyCode::Q),
        'r' => Some(KeyCode::R),
        's' => Some(KeyCode::S),
        't' => Some(KeyCode::T),
        'u' => Some(KeyCode::U),
        'v' => Some(KeyCode::V),
        'w' => Some(KeyCode::W),
        'x' => Some(KeyCode::X),
        'y' => Some(KeyCode::Y),
        'z' => Some(KeyCode::Z),
        '[' => Some(KeyCode::LBracket),
        ']' => Some(KeyCode::RBracket),
        '\\' => Some(KeyCode::BackSlash),
        ';' => Some(KeyCode::SemiColon),
        '\'' => Some(KeyCode::Quote),
        ',' => Some(KeyCode::Comma),
        '.' => Some(KeyCode::Period),
        '/' => Some(KeyCode::ForwardSlash),
        _ => None,
    }
}

/// The key that gives `c` while Shift is held.
pub open spec fn shifted_key(c: char) -> Option<KeyCode> {
    match c {
        '!' => Some(KeyCode::One),
        '@' => Some(KeyCode::Two),
        '#' => Some(KeyCode::Three),
        '$' => Some(KeyCode::Four),
        '%' => Some(KeyCode::Five),
        '^' => Some(KeyCode::Six),
        '&' => Some(KeyCode::Seven),
        '*' => Some(KeyCode::Eight),
        '(' => Some(KeyCode::Nine),
        ')' => Some(KeyCode::Zero),
        '_' => Some(KeyCode::Dash),
        '+' => Some(KeyCode::Equal),
        'A' => Some(KeyCode::A),
        'B' => Some(KeyCode::B),
        'C' => Some(KeyCode::C),
        'D' => Some(KeyCode::D),
        'E' => Some(KeyCode::E),
        'F' => Some(KeyCode::F),
        'G' => Some(KeyCode::G),
        'H' => Some(KeyCode::H),
        'I' => Some(KeyCode::I),
        'J' => Some(KeyCode::J),
        'K' => Some(KeyCode::K),
        'L' => Some(KeyCode::L),
        'M' => Some(KeyCode::M),
        'N' => Some(KeyCode::N),
        'O' => Some(KeyCode::O),
        'P' => Some(KeyCode::P),
        'Q' => Some(KeyCode::Q),
        'R' => Some(KeyCode::R),
        'S' => Some(KeyCode::S),
        'T' => Some(KeyCode::T),
        'U' => Some(KeyCode::U),
        'V' => Some(KeyCode::V),
        'W' => Some(KeyCode::W),
        'X' => Some(KeyCode::X),
        'Y' => Some(KeyCode::Y),
        'Z' => Some(KeyCode::Z),
        '{' => Some(KeyCode::LBracket),
        '}' => Some(KeyCode::RBracket),
        '|' => Some(KeyCode::BackSlash),
        ':' => Some(KeyCode::SemiColon),
        '"' => Some(KeyCode::Quote),
        '<' => Some(KeyCode::Comma),
        '>' => Some(KeyCode::Period),
        '?' => Some(KeyCode::ForwardSlash),
        _ => None,
    }
}

/// The key behind a blank: space, line end (either form) or tab.
pub open spec fn blank_key(c: char) -> Option<KeyCode> {
    match c {
        ' ' => Some(KeyCode::Space),
        '\n' | '\r' => Some(KeyCode::Enter),
        '\t' => Some(KeyCode::Tab),
        _ => None,
    }
}

/// The bytes that type one character, or `None` where no key produces it.
///
/// A plain character is typed as text. A shifted one is the chord of Shift
/// and its key. A blank is the chord of its one key.
pub open spec fn character_bytes(c: char) -> Option<Seq<u8>> {
    if let Some(key) = plain_key(c) {
        Some(text_bytes(seq![key]))
    } else if let Some(key) = shifted_key(c) {
        Some(chord_bytes(seq![KeyCode::Shift, key]))
    } else if let Some(key) = blank_key(c) {
        Some(chord_bytes(seq![key]))
    } else {
        None
    }
}

/// Whether every character of `text` can be typed.
pub open spec fn message_supported(text: Seq<char>) -> bool {
    forall|i: int| 0 <= i < text.len() ==> character_bytes(#[trigger] text[i]) is Some
}

/// Whether `at` is the place of the first character of `text` that no key
/// produces.
pub open spec fn first_unsupported(text: Seq<char>, at: int) -> bool {
    &&& 0 <= at < text.len()
    &&& character_bytes(text[at]) is None
    &&& message_supported(text.take(at))
}

/// What one character adds to a message: its bytes, or nothing where it
/// cannot be typed.
pub open spec fn character_part(c: char) -> Seq<u8> {
    match character_bytes(c) {
        Some(bytes) => bytes,
        None => Seq::empty(),
    }
}

/// The bytes of a message: the bytes of its characters, one after another.
pub open spec fn message_bytes(text: Seq<char>) -> Seq<u8> {
    text.map_values(|c: char| character_part(c)).flatten()
}

/// The number a character stands for where text numbers keys: its code
/// point, cut to one byte.
pub open spec fn index_of(c: char) -> u8 {
    (c as u32 % 256) as u8
}

/// Whether every character of `text` numbers a key.
pub open spec fn all_indexed(text: Seq<char>) -> bool {
    forall|i: int| 0 <= i < text.len() ==> index_of(#[trigger] text[i]) < 73
}

/// The press byte of a key.
pub fn press(keycode: &KeyCode) -> (code: u8)
    ensures
        code == keycode.press_code(),
{
    keycode.lookup().0
}

/// The release byte of a key.
pub fn release(keycode: &KeyCode) -> (code: u8)
    ensures
        code == keycode.release_code(),
{
    keycode.lookup().1
}

/// Encodes keys as typed text.
pub fn create_text(keys: Vec<KeyCode>) -> (packet: Vec<u8>)
    ensures
        packet@ == text_bytes(keys@),
{
    let mut packet: Vec<u8> = Vec::new();
    let mut i: usize = 0;
    while i < keys.len()
        invariant
            i <= keys.len(),
            packet@ == text_bytes(keys@.take(i as int)),
        decreases keys.len() - i,
    {
        packet.push(press(&keys[i]));
        packet.push(release(&keys[i]));
        i += 1;
    }
    assert(keys@.take(i as int) == keys@);
    packet
}

/// Encodes keys as one chord.
pub fn create_command(keys: Vec<KeyCode>) -> (packet: Vec<u8>)
    ensures
        packet@ == chord_bytes(keys@),
{
    let n: usize = keys.len();
    let mut packet: Vec<u8> = Vec::new();
    let mut i: usize = 0;
    while i < n
        invariant
            n == keys.len(),
            i <= n,
            packet@.len() == i,
            forall|j: int| 0 <= j < i ==> packet@[j] == keys@[j].press_code(),
        decreases n - i,
    {
        packet.push(press(&keys[i]));
        i += 1;
    }
    let mut left: usize = n;
    while left > 0
        invariant
            n == keys.len(),
            left <= n,
            packet@.len() == n + (n - left),
            forall|j: int| 0 <= j < n ==> packet@[j] == keys@[j].press_code(),
            forall|j: int| n <= j < packet@.len() ==> packet@[j] == keys@[2 * n - 1 - j].release_code(),
        decreases left,
    {
        left -= 1;
        packet.push(release(&keys[left]));
    }
    packet
}

/// Types one key: its press, then its release.
fn key(keycode: KeyCode) -> (packet: Vec<u8>)
    ensures
        packet@ == text_bytes(seq![keycode]),
{
    create_text(vec![keycode])
}

/// Types one key with Shift held around it.
fn shift(keycode: KeyCode) -> (packet: Vec<u8>)
    ensures
        packet@ == chord_bytes(seq![KeyCode::Shift, keycode]),
{
    create_command(vec![KeyCode::Shift, keycode])
}

/// Strikes one key as a chord of its own.
fn command(keycode: KeyCode) -> (packet: Vec<u8>)
    ensures
        packet@ == chord_bytes(seq![keycode]),
{
    create_command(vec![keycode])
}

/// Encodes one character, or names it where no key produces it.
pub fn character_packet(c: char) -> (result: Result<Vec<u8>, Error>)
    ensures
        match result {
            Ok(packet) => character_bytes(c) == Some(packet@),
            Err(e) => character_bytes(c) is None && e == Error::UnsupportedCharacter(c),
        },
{
    let packet = match c {
        '1' => key(KeyCode::One),
        '!' => shift(KeyCode::One),
        '2' => key(KeyCode::Two),
        '@' => shift(KeyCode::Two),
        '3' => key(KeyCode::Three),
        '#' => shift(KeyCode::Three),
        '4' => key(KeyCode::Four),
        '$' => shift(KeyCode::Four),
        '5' => key(KeyCode::Five),
        '%' => shift(KeyCode::Five),
        '6' => key(KeyCode::Six),
        '^' => shift(KeyCode::Six),
        '7' => key(KeyCode::Seven),
        '&' => shift(KeyCode::Seven),
        '8' => key(KeyCode::Eight),
        '*' => shift(KeyCode::Eight),
        '9' => key(KeyCode::Nine),
        '(' => shift(KeyCode::Nine),
        '0' => key(KeyCode::Zero),
        ')' => shift(KeyCode::Zero),
        '-' => key(KeyCode::Dash),
        '_' => shift(KeyCode::Dash),
        '=' => key(KeyCode::Equal),
        '+' => shift(KeyCode::Equal),
        'a' => key(KeyCode::A),
        'A' => shift(KeyCode::A),
        'b' => key(KeyCode::B),
        'B' => shift(KeyCode::B),
        'c' => key(KeyCode::C),
        'C' => shift(KeyCode::C),
        'd' => key(KeyCode::D),
        'D' => shift(KeyCode::D),
        'e' => key(KeyCode::E),
        'E' => shift(KeyCode::E),
        'f' => key(KeyCode::F),
        'F' => shift(KeyCode::F),
        'g' => key(KeyCode::G),
        'G' => shift(KeyCode::G),
        'h' => key(KeyCode::H),
        'H' => shift(KeyCode::H),
        'i' => key(KeyCode::I),
        'I' => shift(KeyCode::I),
        'j' => key(KeyCode::J),
        'J' => shift(KeyCode::J),
        'k' => key(KeyCode::K),
        'K' => shift(KeyCode::K),
        'l' => key(KeyCode::L),
        'L' => shift(KeyCode::L),
        'm' => key(KeyCode::M),
        'M' => shift(KeyCode::M),
        'n' => key(KeyCode::N),
        'N' => shift(KeyCode::N),
        'o' => key(KeyCode::O),
        'O' => shift(KeyCode::O),
        'p' => key(KeyCode::P),
        'P' => shift(KeyCode::P),
        'q' => key(KeyCode::Q),
        'Q' => shift(KeyCode::Q),
        'r' => key(KeyCode::R),
        'R' => shift(KeyCode::R),
        's' => key(KeyCode::S),
        'S' => shift(KeyCode::S),
        't' => key(KeyCode::T),
        'T' => shift(KeyCode::T),
        'u' => key(KeyCode::U),
        'U' => shift(KeyCode::U),
        'v' => key(KeyCode::V),
        'V' => shift(KeyCode::V),
        'w' => key(KeyCode::W),
        'W' => shift(KeyCode::W),
        'x' => key(KeyCode::X),
        'X' => shift(KeyCode::X),
        'y' => key(KeyCode::Y),
        'Y' => shift(KeyCode::Y),
        'z' => key(KeyCode::Z),
        'Z' => shift(KeyCode::Z),
        '[' => key(KeyCode::LBracket),
        '{' => shift(KeyCode::LBracket),
        ']' => key(KeyCode::RBracket),
        '}' => shift(KeyCode::RBracket),
        '\\' => key(KeyCode::BackSlash),
        '|' => shift(KeyCode::BackSlash),
        ';' => key(KeyCode::SemiColon),
        ':' => shift(KeyCode::SemiColon),
        '\'' => key(KeyCode::Quote),
        '"' => shift(KeyCode::Quote),
        ',' => key(KeyCode::Comma),
        '<' => shift(KeyCode::Comma),
        '.' => key(KeyCode::Period),
        '>' => shift(KeyCode::Period),
        '/' => key(KeyCode::ForwardSlash),
        '?' => shift(KeyCode::ForwardSlash),
        ' ' => command(KeyCode::Space),
        '\n' | '\r' => command(KeyCode::Enter),
        '\t' => command(KeyCode::Tab),
        _ => {
            return Err(Error::UnsupportedCharacter(c));
        },
    };
    Ok(packet)
}

/// Encodes a whole message, character by character.
///
/// Either every character is typed or none is: the first character that no
/// key produces ends the encoding, and the error names it.
pub fn create_message(data: &str) -> (result: Result<Vec<u8>, Error>)
    ensures
        match result {
            Ok(packet) => message_supported(data@) && packet@ == message_bytes(data@),
            Err(e) => exists|at: int| #[trigger]
                first_unsupported(data@, at) && e == Error::UnsupportedCharacter(data@[at]),
        },
{
    let mut packet: Vec<u8> = Vec::new();
    for c in it: data.chars()
        invariant
            it.seq() == data@,
            message_supported(data@.take(it.index())),
            packet@ == message_bytes(data@.take(it.index())),
    {
        let ghost at = it.index();
        match character_packet(c) {
            Ok(mut bytes) => {
                proof {
                    message_push(data@.take(at), c);
                    assert(data@.take(at + 1) == data@.take(at).push(c));
                }
                packet.append(&mut bytes);
            },
            Err(e) => {
                assert(first_unsupported(data@, at));
                return Err(e);
            },
        }
    }
    assert(data@.take(data@.len() as int) == data@);
    Ok(packet)
}

/// Reads keys from text in which each character numbers one key. One
/// character that numbers no key spoils the whole text.
pub fn indexed_keys(data: &str) -> (keys: Option<Vec<KeyCode>>)
    ensures
        match keys {
            Some(keys) => {
                &&& all_indexed(data@)
                &&& keys@.len() == data@.len()
                &&& forall|i: int|
                    0 <= i < keys@.len() ==> (#[trigger] keys@[i]).index() == index_of(data@[i])
            },
            None => !all_indexed(data@),
        },
{
    let mut keys: Vec<KeyCode> = Vec::new();
    for c in it: data.chars()
        invariant
            it.seq() == data@,
            keys@.len() == it.index(),
            forall|i: int| 0 <= i < it.index() ==> index_of(#[trigger] data@[i]) < 73,
            forall|i: int|
                0 <= i < keys@.len() ==> (#[trigger] keys@[i]).index() == index_of(data@[i]),
    {
        let code: u32 = c as u32;
        match KeyCode::from_index((code % 256) as u8) {
            Some(key) => keys.push(key),
            None => {
                assert(index_of(data@[it.index()]) >= 73);
                return None;
            },
        }
    }
    Some(keys)
}

/// Adding one character to a message adds that character's part to its
/// bytes, and keeps it typeable where the character is.
pub proof fn message_push(text: Seq<char>, c: char)
    ensures
        message_bytes(text.push(c)) == message_bytes(text) + character_part(c),
        message_supported(text.push(c)) <==> message_supported(text) && character_bytes(c) is Some,
{
    let part = |c: char| character_part(c);
    assert(text.push(c).map_values(part) == text.map_values(part).push(part(c)));
    text.map_values(part).lemma_flatten_push(part(c));
    if message_supported(text.push(c)) {
        assert(text.push(c)[text.len() as int] == c);
        assert forall|i: int| 0 <= i < text.len() implies character_bytes(
            #[trigger] text[i],
        ) is Some by {
            assert(text.push(c)[i] == text[i]);
        }
    }
}

/// The empty message has no bytes.
pub proof fn message_empty()
    ensures
        message_supported(Seq::<char>::empty()),
        message_bytes(Seq::<char>::empty()) == Seq::<u8>::empty(),
{
    let part = |c: char| character_part(c);
    assert(Seq::<char>::empty().map_values(part) == Seq::<Seq<u8>>::empty());
}

} // verus!
