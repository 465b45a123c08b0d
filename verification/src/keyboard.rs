use vstd::prelude::*;
use crate::constants::NUM_KEYS;

verus! {

/// The keys of a host keyboard that matter to the keypad, by their
/// position on a QWERTY layout. Every other key is `Other`.
#[derive(Debug, Clone, Copy, PartialEq, Eq)]
pub enum Key {
    Digit1,
    Digit2,
    Digit3,
    Digit4,
    KeyQ,
    KeyW,
    KeyE,
    KeyR,
    KeyA,
    KeyS,
    KeyD,
    KeyF,
    KeyZ,
    KeyX,
    KeyC,
    KeyV,
    Other,
}

/// The keypad key that a keyboard key stands for. The four by four block
/// `1234 / QWER / ASDF / ZXCV` is laid over the keypad `123C / 456D /
/// 789E / A0BF`.
pub open spec fn keypad_index(key: Key) -> Option<usize> {
    match key {
        Key::Digit1 => Some(0x1),
        Key::Digit2 => Some(0x2),
        Key::Digit3 => Some(0x3),
        Key::Digit4 => Some(0xC),
        Key::KeyQ => Some(0x4),
        Key::KeyW => Some(0x5),
        Key::KeyE => Some(0x6),
        Key::KeyR => Some(0xD),
        Key::KeyA => Some(0x7),
        Key::KeyS => Some(0x8),
        Key::KeyD => Some(0x9),
        Key::KeyF => Some(0xE),
        Key::KeyZ => Some(0xA),
        Key::KeyX => Some(0x0),
        Key::KeyC => Some(0xB),
        Key::KeyV => Some(0xF),
        Key::Other => None,
    }
}

/// Maps a keyboard key to the index of the keypad key that it stands for,
/// if it stands for one. The index always names one of the sixteen keys.
pub fn map_keyboard(key: Key) -> (index: Option<usize>)
    ensures
        index == keypad_index(key),
        index matches Some(i) ==> i < NUM_KEYS,
        index is None <==> key == Key::Other,
{
    match key {
        Key::Digit1 => Some(0x1),
        Key::Digit2 => Some(0x2),
        Key::Digit3 => Some(0x3),
        Key::Digit4 => Some(0xC),
        Key::KeyQ => Some(0x4),
        Key::KeyW => Some(0x5),
        Key::KeyE => Some(0x6),
        Key::KeyR => Some(0xD),
        Key::KeyA => Some(0x7),
        Key::KeyS => Some(0x8),
        Key::KeyD => Some(0x9),
        Key::KeyF => Some(0xE),
        Key::KeyZ => Some(0xA),
        Key::KeyX => Some(0x0),
        Key::KeyC => Some(0xB),
        Key::KeyV => Some(0xF),
        Key::Other => None,
    }
}

/// No two keyboard keys stand for the same keypad key.
pub proof fn lemma_keys_are_distinct(a: Key, b: Key)
    requires
        keypad_index(a) is Some,
        keypad_index(a) == keypad_index(b),
    ensures
        a == b,
{
}

/// Every keypad key can be reached from the keyboard.
pub proof fn lemma_every_key_is_mapped(index: usize)
    requires
        index < NUM_KEYS,
    ensures
        exists|key: Key| keypad_index(key) == Some(index),
{
    let keys = seq![
        Key::KeyX,
        Key::Digit1,
        Key::Digit2,
        Key::Digit3,
        Key::KeyQ,
        Key::KeyW,
        Key::KeyE,
        Key::KeyA,
        Key::KeyS,
        Key::KeyD,
        Key::KeyZ,
        Key::KeyC,
        Key::Digit4,
        Key::KeyR,
        Key::KeyF,
        Key::KeyV,
    ];
    assert(keypad_index(keys[index as int]) == Some(index));
}

} // verus!
