use hagstrom_core::action::key::{
    character_packet, create_command, create_message, create_text, indexed_keys, press, release,
};
use hagstrom_core::action::KeyCode;
use hagstrom_core::error::Error;
use hagstrom_core::FLUSH;

const PLAIN: &str = "1234567890-=abcdefghijklmnopqrstuvwxyz[]\\;',./";
const SHIFTED: &str = "!@#$%^&*()_+ABCDEFGHIJKLMNOPQRSTUVWXYZ{}|:\"<>?";

fn keys_of_the_rows() -> Vec<KeyCode> {
    vec![
        KeyCode::One,
        KeyCode::Two,
        KeyCode::Three,
        KeyCode::Four,
        KeyCode::Five,
        KeyCode::Six,
        KeyCode::Seven,
        KeyCode::Eight,
        KeyCode::Nine,
        KeyCode::Zero,
        KeyCode::Dash,
        KeyCode::Equal,
        KeyCode::A,
        KeyCode::B,
        KeyCode::C,
        KeyCode::D,
        KeyCode::E,
        KeyCode::F,
        KeyCode::G,
        KeyCode::H,
        KeyCode::I,
        KeyCode::J,
        KeyCode::K,
        KeyCode::L,
        KeyCode::M,
        KeyCode::N,
        KeyCode::O,
        KeyCode::P,
        KeyCode::Q,
        KeyCode::R,
        KeyCode::S,
        KeyCode::T,
        KeyCode::U,
        KeyCode::V,
        KeyCode::W,
        KeyCode::X,
        KeyCode::Y,
        KeyCode::Z,
        KeyCode::LBracket,
        KeyCode::RBracket,
        KeyCode::BackSlash,
        KeyCode::SemiColon,
        KeyCode::Quote,
        KeyCode::Comma,
        KeyCode::Period,
        KeyCode::ForwardSlash,
    ]
}

#[test]
fn press_and_release_read_the_table() {
    assert_eq!(press(&KeyCode::A), 31);
    assert_eq!(release(&KeyCode::A), 159);
    assert_eq!(press(&KeyCode::F12), 123);
    assert_eq!(release(&KeyCode::F12), 251);
}

#[test]
fn chord_presses_in_order_and_releases_in_reverse() {
    assert_eq!(create_command(vec![KeyCode::A, KeyCode::B]), vec![31, 50, 178, 159]);
    assert_eq!(create_command(vec![KeyCode::Super, KeyCode::R]), vec![70, 20, 148, 198]);
}

#[test]
fn chord_of_three_keys() {
    assert_eq!(
        create_command(vec![KeyCode::Control, KeyCode::Alt, KeyCode::BackSpace]),
        vec![58, 60, 15, 143, 188, 186]
    );
}

#[test]
fn chord_of_any_two_keys_mirrors_itself() {
    let keys = keys_of_the_rows();
    for a in keys.iter() {
        for b in keys.iter() {
            assert_eq!(
                create_command(vec![*a, *b]),
                vec![press(a), press(b), release(b), release(a)]
            );
        }
    }
}

#[test]
fn chord_with_a_key_twice() {
    assert_eq!(create_command(vec![KeyCode::A, KeyCode::A]), vec![31, 31, 159, 159]);
}

#[test]
fn text_presses_and_releases_key_by_key() {
    assert_eq!(create_text(vec![KeyCode::A, KeyCode::B]), vec![31, 159, 50, 178]);
}

#[test]
fn text_of_any_two_keys_interleaves() {
    let keys = keys_of_the_rows();
    for a in keys.iter() {
        for b in keys.iter() {
            assert_eq!(
                create_text(vec![*a, *b]),
                vec![press(a), release(a), press(b), release(b)]
            );
        }
    }
}

#[test]
fn no_keys_give_no_bytes() {
    assert_eq!(create_text(vec![]), Vec::<u8>::new());
    assert_eq!(create_command(vec![]), Vec::<u8>::new());
    assert_eq!(create_message(""), Ok(vec![]));
}

#[test]
fn one_key_is_the_same_as_text_and_as_chord() {
    for key in keys_of_the_rows() {
        assert_eq!(create_text(vec![key]), create_command(vec![key]));
        assert_eq!(create_text(vec![key]), vec![press(&key), release(&key)]);
    }
}

#[test]
fn lower_case_letter_is_typed_as_text() {
    assert_eq!(create_message("a"), Ok(create_text(vec![KeyCode::A])));
    assert_eq!(create_message("a"), Ok(vec![31, 159]));
}

#[test]
fn upper_case_letter_is_a_chord_with_shift() {
    assert_eq!(create_message("A"), Ok(create_command(vec![KeyCode::Shift, KeyCode::A])));
    assert_eq!(create_message("A"), Ok(vec![44, 31, 159, 172]));
}

#[test]
fn every_plain_character_types_its_key() {
    let keys = keys_of_the_rows();
    assert_eq!(PLAIN.chars().count(), keys.len());
    for (c, key) in PLAIN.chars().zip(keys) {
        assert_eq!(character_packet(c), Ok(create_text(vec![key])));
    }
}

#[test]
fn every_shifted_character_holds_shift_around_its_key() {
    let keys = keys_of_the_rows();
    assert_eq!(SHIFTED.chars().count(), keys.len());
    for (c, key) in SHIFTED.chars().zip(keys) {
        assert_eq!(character_packet(c), Ok(create_command(vec![KeyCode::Shift, key])));
        assert_eq!(
            character_packet(c),
            Ok(vec![44, press(&key), release(&key), 172])
        );
    }
}

#[test]
fn blanks_strike_their_key_once() {
    assert_eq!(character_packet(' '), Ok(vec![61, 189]));
    assert_eq!(character_packet('\n'), Ok(vec![43, 171]));
    assert_eq!(character_packet('\r'), Ok(vec![43, 171]));
    assert_eq!(character_packet('\t'), Ok(vec![16, 144]));
    assert_eq!(character_packet(' '), Ok(create_command(vec![KeyCode::Space])));
    assert_eq!(character_packet('\n'), Ok(create_command(vec![KeyCode::Enter])));
    assert_eq!(character_packet('\t'), Ok(create_command(vec![KeyCode::Tab])));
}

#[test]
fn characters_outside_the_table_are_named() {
    assert_eq!(character_packet('`'), Err(Error::UnsupportedCharacter('`')));
    assert_eq!(character_packet('~'), Err(Error::UnsupportedCharacter('~')));
    assert_eq!(character_packet('\u{0}'), Err(Error::UnsupportedCharacter('\u{0}')));
    assert_eq!(character_packet('\u{7f}'), Err(Error::UnsupportedCharacter('\u{7f}')));
    assert_eq!(character_packet('é'), Err(Error::UnsupportedCharacter('é')));
    assert_eq!(character_packet('😀'), Err(Error::UnsupportedCharacter('😀')));
}

#[test]
fn the_table_has_ninety_six_characters() {
    let mut supported = 0;
    for code in 0..=0x10FFFFu32 {
        if let Some(c) = char::from_u32(code) {
            if character_packet(c).is_ok() {
                supported += 1;
            }
        }
    }
    assert_eq!(supported, 46 + 46 + 4);
}

#[test]
fn message_is_the_bytes_of_its_characters_in_order() {
    assert_eq!(
        create_message("Hi!"),
        Ok(vec![44, 36, 164, 172, 24, 152, 44, 2, 130, 172])
    );
    assert_eq!(create_message("9009"), Ok(vec![10, 138, 11, 139, 11, 139, 10, 138]));
    assert_eq!(
        create_message(":wq\n"),
        Ok(vec![44, 40, 168, 172, 18, 146, 17, 145, 43, 171])
    );
}

#[test]
fn message_matches_character_by_character() {
    let text = "The quick brown fox, at 10:45, jumps over {lazy} dogs?\r\n\t[done]";
    let mut expected = Vec::new();
    for c in text.chars() {
        expected.extend(character_packet(c).unwrap());
    }
    assert_eq!(create_message(text), Ok(expected));
}

#[test]
fn unmapped_character_fails_the_whole_message() {
    assert_eq!(create_message("😀"), Err(Error::UnsupportedCharacter('😀')));
    assert_eq!(create_message("abc😀def"), Err(Error::UnsupportedCharacter('😀')));
    assert_eq!(create_message("abc😀"), Err(Error::UnsupportedCharacter('😀')));
    assert_eq!(create_message("😀abc"), Err(Error::UnsupportedCharacter('😀')));
}

#[test]
fn the_first_unmapped_character_is_named() {
    assert_eq!(create_message("a~b`c"), Err(Error::UnsupportedCharacter('~')));
    assert_eq!(create_message("`~"), Err(Error::UnsupportedCharacter('`')));
}

#[test]
fn lower_case_text_takes_two_bytes_a_letter() {
    let text = "thequickbrownfoxjumpsoverthelazydog";
    let packet = create_message(text).unwrap();
    assert_eq!(packet.len(), 2 * text.len());
    assert_eq!(create_message("hi"), Ok(vec![36, 164, 24, 152]));
    for n in 0..40 {
        let text = "z".repeat(n);
        assert_eq!(create_message(&text).unwrap().len(), 2 * n);
    }
}

#[test]
fn presses_and_releases_balance_in_every_message() {
    let text = "Mixed CASE, with (symbols) & blanks\t!\n";
    let packet = create_message(text).unwrap();
    let presses = packet.iter().filter(|byte| **byte < 128).count();
    let releases = packet.iter().filter(|byte| **byte >= 128).count();
    assert_eq!(presses, releases);
}

#[test]
fn no_message_holds_the_flush_byte() {
    let mut all = String::new();
    all.push_str(PLAIN);
    all.push_str(SHIFTED);
    all.push_str(" \n\r\t");
    let packet = create_message(&all).unwrap();
    assert_eq!(packet.len(), 46 * 2 + 46 * 4 + 4 * 2);
    assert!(!packet.contains(&FLUSH));
}

#[test]
fn text_can_number_its_keys() {
    assert_eq!(indexed_keys(""), Some(vec![]));
    assert_eq!(
        indexed_keys("\u{0}\u{1}\u{a}"),
        Some(vec![KeyCode::One, KeyCode::Two, KeyCode::A])
    );
    assert_eq!(indexed_keys("\u{48}"), Some(vec![KeyCode::F12]));
}

#[test]
fn one_bad_number_spoils_the_text() {
    assert_eq!(indexed_keys("\u{49}"), None);
    assert_eq!(indexed_keys("\u{0}\u{1}\u{49}\u{2}"), None);
    assert_eq!(indexed_keys("a"), None);
    assert_eq!(indexed_keys("\u{ff}"), None);
}

#[test]
fn a_number_is_the_low_byte_of_the_character() {
    assert_eq!(indexed_keys("\u{100}"), Some(vec![KeyCode::One]));
    assert_eq!(indexed_keys("\u{1f60a}"), Some(vec![KeyCode::A]));
    assert_eq!(indexed_keys("\u{149}"), None);
}
