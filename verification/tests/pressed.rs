use usb_keypad::key::Key;
use usb_keypad::pressed::PressedKeys;

#[test]
fn a_new_set_is_empty() {
    let pressed = PressedKeys::new();
    assert!(pressed.is_empty());
    assert_eq!(pressed.len(), 0);
    for place in 0..16 {
        assert!(!pressed.contains(Key::from_ordinal(place).unwrap()));
    }
}

#[test]
fn insert_adds_the_key_and_no_other() {
    let mut pressed = PressedKeys::new();
    pressed.insert(Key::Num7);
    assert!(pressed.contains(Key::Num7));
    assert!(!pressed.contains(Key::Num8));
    assert!(!pressed.contains(Key::Num0));
    assert!(!pressed.is_empty());
    assert_eq!(pressed.len(), 1);
}

#[test]
fn inserting_a_key_twice_counts_it_once() {
    let mut pressed = PressedKeys::new();
    pressed.insert(Key::Star);
    pressed.insert(Key::Star);
    assert_eq!(pressed.len(), 1);
    assert!(pressed.contains(Key::Star));
}

#[test]
fn len_counts_the_keys() {
    let mut pressed = PressedKeys::new();
    for place in 0..16 {
        assert_eq!(pressed.len(), place);
        pressed.insert(Key::from_ordinal(place).unwrap());
    }
    assert_eq!(pressed.len(), 16);
    for place in 0..16 {
        assert!(pressed.contains(Key::from_ordinal(place).unwrap()));
    }
}

#[test]
fn sets_with_the_same_keys_are_equal() {
    let mut first = PressedKeys::new();
    first.insert(Key::A);
    first.insert(Key::Num5);
    let mut second = PressedKeys::new();
    second.insert(Key::Num5);
    second.insert(Key::A);
    assert_eq!(first, second);
    second.insert(Key::B);
    assert_ne!(first, second);
}
