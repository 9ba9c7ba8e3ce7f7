use std::collections::HashSet;

use hagstrom_core::action::KeyCode;
use hagstrom_core::FLUSH;

fn all_keys() -> Vec<KeyCode> {
    let mut keys = Vec::new();
    let mut index: u8 = 0;
    while let Some(key) = KeyCode::from_index(index) {
        keys.push(key);
        index += 1;
    }
    keys
}

#[test]
fn lookup_gives_the_pair_of_the_table() {
    assert_eq!(KeyCode::One.lookup(), (2, 130));
    assert_eq!(KeyCode::Zero.lookup(), (11, 139));
    assert_eq!(KeyCode::A.lookup(), (31, 159));
    assert_eq!(KeyCode::Z.lookup(), (46, 174));
    assert_eq!(KeyCode::Tilde.lookup(), (1, 129));
    assert_eq!(KeyCode::Space.lookup(), (61, 189));
    assert_eq!(KeyCode::Enter.lookup(), (43, 171));
    assert_eq!(KeyCode::Shift.lookup(), (44, 172));
    assert_eq!(KeyCode::Super.lookup(), (70, 198));
    assert_eq!(KeyCode::Escape.lookup(), (110, 238));
    assert_eq!(KeyCode::Right.lookup(), (89, 217));
    assert_eq!(KeyCode::F1.lookup(), (112, 240));
    assert_eq!(KeyCode::F12.lookup(), (123, 251));
}

#[test]
fn lookup_is_stable() {
    for key in all_keys() {
        assert_eq!(key.lookup(), key.lookup());
    }
}

#[test]
fn the_table_has_seventy_three_keys() {
    assert_eq!(all_keys().len(), 73);
}

#[test]
fn no_two_keys_share_a_press_byte() {
    let presses: HashSet<u8> = all_keys().iter().map(|key| key.lookup().0).collect();
    assert_eq!(presses.len(), 73);
}

#[test]
fn no_two_keys_share_a_release_byte() {
    let releases: HashSet<u8> = all_keys().iter().map(|key| key.lookup().1).collect();
    assert_eq!(releases.len(), 73);
}

#[test]
fn release_is_press_with_the_top_bit_set() {
    for key in all_keys() {
        let (press, release) = key.lookup();
        assert!(press < 128);
        assert_eq!(release, press | 0x80);
    }
}

#[test]
fn no_key_sends_the_flush_byte() {
    assert_eq!(FLUSH, 0x38);
    for key in all_keys() {
        let (press, release) = key.lookup();
        assert_ne!(press, FLUSH);
        assert_ne!(release, FLUSH);
    }
}

#[test]
fn keys_are_numbered_in_the_order_of_the_list() {
    assert_eq!(KeyCode::from_index(0), Some(KeyCode::One));
    assert_eq!(KeyCode::from_index(9), Some(KeyCode::Zero));
    assert_eq!(KeyCode::from_index(10), Some(KeyCode::A));
    assert_eq!(KeyCode::from_index(35), Some(KeyCode::Z));
    assert_eq!(KeyCode::from_index(36), Some(KeyCode::Tilde));
    assert_eq!(KeyCode::from_index(60), Some(KeyCode::Right));
    assert_eq!(KeyCode::from_index(61), Some(KeyCode::F1));
    assert_eq!(KeyCode::from_index(72), Some(KeyCode::F12));
}

#[test]
fn numbers_past_the_list_name_no_key() {
    assert_eq!(KeyCode::from_index(73), None);
    assert_eq!(KeyCode::from_index(128), None);
    assert_eq!(KeyCode::from_index(255), None);
}

#[test]
fn every_number_names_a_key_of_its_own() {
    let keys = all_keys();
    for (i, a) in keys.iter().enumerate() {
        for (j, b) in keys.iter().enumerate() {
            assert_eq!(a == b, i == j);
        }
    }
}
