use emulator::constants::NUM_KEYS;
use emulator::error::KeypadError;
use emulator::input::Keypad;

#[test]
fn new_keypad_has_every_key_released() {
    let keypad = Keypad::new();
    for idx in 0..NUM_KEYS {
        assert_eq!(keypad.is_pressed(idx), Ok(false));
    }
}

#[test]
fn press_and_release_change_one_key() {
    let mut keypad = Keypad::new();
    assert_eq!(keypad.press_key(0xA), Ok(()));
    assert_eq!(keypad.is_pressed(0xA), Ok(true));
    assert_eq!(keypad.is_pressed(0x9), Ok(false));
    assert_eq!(keypad.is_pressed(0xB), Ok(false));
    assert_eq!(keypad.release_key(0xA), Ok(()));
    assert_eq!(keypad.is_pressed(0xA), Ok(false));
}

#[test]
fn key_stays_down_until_released() {
    let mut keypad = Keypad::new();
    keypad.press_key(3).unwrap();
    keypad.press_key(3).unwrap();
    assert_eq!(keypad.is_pressed(3), Ok(true));
    keypad.press_key(4).unwrap();
    assert_eq!(keypad.is_pressed(3), Ok(true));
    keypad.release_key(3).unwrap();
    assert_eq!(keypad.is_pressed(3), Ok(false));
    assert_eq!(keypad.is_pressed(4), Ok(true));
}

#[test]
fn releasing_a_released_key_changes_nothing() {
    let mut keypad = Keypad::new();
    assert_eq!(keypad.release_key(0), Ok(()));
    assert_eq!(keypad.is_pressed(0), Ok(false));
}

#[test]
fn key_index_out_of_range_is_refused() {
    let mut keypad = Keypad::new();
    assert_eq!(keypad.is_pressed(16), Err(KeypadError::OutOfBoundsKeyIndex { idx: 16 }));
    assert_eq!(keypad.press_key(16), Err(KeypadError::OutOfBoundsKeyIndex { idx: 16 }));
    assert_eq!(keypad.release_key(255), Err(KeypadError::OutOfBoundsKeyIndex { idx: 255 }));
    for idx in 0..NUM_KEYS {
        assert_eq!(keypad.is_pressed(idx), Ok(false));
    }
}

#[test]
fn last_key_is_in_range() {
    let mut keypad = Keypad::new();
    assert_eq!(keypad.press_key(15), Ok(()));
    assert_eq!(keypad.is_pressed(15), Ok(true));
}

#[test]
fn keypad_reset_releases_every_key() {
    let mut keypad = Keypad::new();
    keypad.press_key(0).unwrap();
    keypad.press_key(15).unwrap();
    keypad.reset();
    for idx in 0..NUM_KEYS {
        assert_eq!(keypad.is_pressed(idx), Ok(false));
    }
}
