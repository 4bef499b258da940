use usb_keypad::key::{Key, KeyPosition};
use usbd_hid::descriptor::KeyboardUsage;

const ALL_KEYS: [Key; 16] = [
    Key::Num0,
    Key::Num1,
    Key::Num2,
    Key::Num3,
    Key::Num4,
    Key::Num5,
    Key::Num6,
    Key::Num7,
    Key::Num8,
    Key::Num9,
    Key::A,
    Key::B,
    Key::C,
    Key::D,
    Key::Star,
    Key::Pound,
];

#[test]
fn positions_follow_the_legend() {
    let legend = [
        [Key::Num1, Key::Num2, Key::Num3, Key::A],
        [Key::Num4, Key::Num5, Key::Num6, Key::B],
        [Key::Num7, Key::Num8, Key::Num9, Key::C],
        [Key::Star, Key::Num0, Key::Pound, Key::D],
    ];
    for (row_index, row) in legend.iter().enumerate() {
        for (column_index, key) in row.iter().enumerate() {
            assert_eq!(key.get_indexes(), KeyPosition { row_index, column_index });
            assert_eq!(Key::at(row_index, column_index), Some(*key));
        }
    }
}

#[test]
fn corner_keys_sit_in_the_corners() {
    assert_eq!(Key::Num1.get_indexes(), KeyPosition { row_index: 0, column_index: 0 });
    assert_eq!(Key::A.get_indexes(), KeyPosition { row_index: 0, column_index: 3 });
    assert_eq!(Key::Star.get_indexes(), KeyPosition { row_index: 3, column_index: 0 });
    assert_eq!(Key::D.get_indexes(), KeyPosition { row_index: 3, column_index: 3 });
    assert_eq!(Key::Num0.get_indexes(), KeyPosition { row_index: 3, column_index: 1 });
    assert_eq!(Key::Num5.get_indexes(), KeyPosition { row_index: 1, column_index: 1 });
}

#[test]
fn positions_outside_the_grid_hold_no_key() {
    assert_eq!(Key::at(4, 0), None);
    assert_eq!(Key::at(0, 4), None);
    assert_eq!(Key::at(4, 4), None);
    assert_eq!(Key::at(usize::MAX, usize::MAX), None);
}

#[test]
fn position_and_key_are_inverse_to_each_other() {
    for key in ALL_KEYS.iter() {
        let position = key.get_indexes();
        assert!(position.row_index < 4);
        assert!(position.column_index < 4);
        assert_eq!(Key::at(position.row_index, position.column_index), Some(*key));
    }
    for row_index in 0..4 {
        for column_index in 0..4 {
            let key = Key::at(row_index, column_index).unwrap();
            assert_eq!(key.get_indexes(), KeyPosition { row_index, column_index });
        }
    }
}

#[test]
fn no_two_keys_share_a_position() {
    for first in ALL_KEYS.iter() {
        for second in ALL_KEYS.iter() {
            if first != second {
                assert_ne!(first.get_indexes(), second.get_indexes());
            }
        }
    }
}

#[test]
fn ordinals_follow_the_enumeration() {
    for (place, key) in ALL_KEYS.iter().enumerate() {
        assert_eq!(key.ordinal(), place);
        assert_eq!(Key::from_ordinal(place), Some(*key));
    }
    assert_eq!(Key::from_ordinal(16), None);
    assert_eq!(Key::from_ordinal(usize::MAX), None);
}

#[test]
fn digits_come_before_letters_and_symbols_last() {
    assert_eq!(Key::Num0.ordinal(), 0);
    assert_eq!(Key::Num9.ordinal(), 9);
    assert_eq!(Key::A.ordinal(), 10);
    assert_eq!(Key::D.ordinal(), 13);
    assert_eq!(Key::Star.ordinal(), 14);
    assert_eq!(Key::Pound.ordinal(), 15);
    assert!(Key::Num5.ordinal() < Key::A.ordinal());
}

#[test]
fn usage_codes_have_their_exact_values() {
    let expected: [(Key, u8); 16] = [
        (Key::Num0, 0x27),
        (Key::Num1, 0x1E),
        (Key::Num2, 0x1F),
        (Key::Num3, 0x20),
        (Key::Num4, 0x21),
        (Key::Num5, 0x22),
        (Key::Num6, 0x23),
        (Key::Num7, 0x24),
        (Key::Num8, 0x25),
        (Key::Num9, 0x26),
        (Key::A, 0x04),
        (Key::B, 0x05),
        (Key::C, 0x06),
        (Key::D, 0x07),
        (Key::Star, 0x55),
        (Key::Pound, 0x2D),
    ];
    for (key, code) in expected.iter() {
        assert_eq!(key.usage_code(), *code);
    }
}

#[test]
fn usage_codes_are_those_of_the_hid_usage_table() {
    let expected: [(Key, KeyboardUsage); 16] = [
        (Key::Num0, KeyboardUsage::Keyboard0CloseParens),
        (Key::Num1, KeyboardUsage::Keyboard1Exclamation),
        (Key::Num2, KeyboardUsage::Keyboard2At),
        (Key::Num3, KeyboardUsage::Keyboard3Hash),
        (Key::Num4, KeyboardUsage::Keyboard4Dollar),
        (Key::Num5, KeyboardUsage::Keyboard5Percent),
        (Key::Num6, KeyboardUsage::Keyboard6Caret),
        (Key::Num7, KeyboardUsage::Keyboard7Ampersand),
        (Key::Num8, KeyboardUsage::Keyboard8Asterisk),
        (Key::Num9, KeyboardUsage::Keyboard9OpenParens),
        (Key::A, KeyboardUsage::KeyboardAa),
        (Key::B, KeyboardUsage::KeyboardBb),
        (Key::C, KeyboardUsage::KeyboardCc),
        (Key::D, KeyboardUsage::KeyboardDd),
        (Key::Star, KeyboardUsage::KeypadMultiply),
        (Key::Pound, KeyboardUsage::KeyboardDashUnderscore),
    ];
    for (key, usage) in expected.iter() {
        assert_eq!(key.usage_code(), *usage as u8);
        assert_eq!(KeyboardUsage::from(key.usage_code()), *usage);
    }
}

#[test]
fn usage_codes_differ_and_are_never_zero() {
    for first in ALL_KEYS.iter() {
        assert_ne!(first.usage_code(), 0);
        for second in ALL_KEYS.iter() {
            if first != second {
                assert_ne!(first.usage_code(), second.usage_code());
            }
        }
    }
}
