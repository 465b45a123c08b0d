use vstd::prelude::*;
use crate::constants::NUM_KEYS;
use crate::error::KeypadError;

verus! {

/// The key states of a keypad on which no key is held down.
pub open spec fn all_released() -> Seq<bool> {
    Seq::new(NUM_KEYS as nat, |k: int| false)
}

/// The sixteen keys of the keypad. A key stays down from the press that
/// set it until it is released.
pub struct Keypad {
    keys: [bool; NUM_KEYS],
}

impl View for Keypad {
    type V = Seq<bool>;

    /// The key states, indexed by key; `true` is held down.
    closed spec fn view(&self) -> Seq<bool> {
        self.keys@
    }
}

impl Keypad {
    /// Every keypad has sixteen keys.
    pub proof fn lemma_view_len(&self)
        ensures
            self@.len() == NUM_KEYS,
    {
    }

    /// Creates a keypad with every key released.
    pub fn new() -> (keypad: Self)
        ensures
            keypad@ == all_released(),
    {
        Self { keys: [false; NUM_KEYS] }
    }

    /// Releases every key.
    pub fn reset(&mut self)
        ensures
            final(self)@ == all_released(),
    {
        self.keys = [false; NUM_KEYS];
    }

    /// Tells whether key `idx` is held down, or fails if there is no such key.
    pub fn is_pressed(&self, idx: usize) -> (r: Result<bool, KeypadError>)
        ensures
            idx < NUM_KEYS ==> r == Ok::<bool, KeypadError>(self@[idx as int]),
            idx >= NUM_KEYS ==> r == Err::<bool, KeypadError>(
                KeypadError::OutOfBoundsKeyIndex { idx },
            ),
    {
        if idx < NUM_KEYS {
            Ok(self.keys[idx])
        } else {
            Err(KeypadError::OutOfBoundsKeyIndex { idx })
        }
    }

    /// Marks key `idx` as held down, or fails, changing nothing, if there is
    /// no such key.
    pub fn press_key(&mut self, idx: usize) -> (r: Result<(), KeypadError>)
        ensures
            idx < NUM_KEYS ==> r == Ok::<(), KeypadError>(()) && final(self)@ == old(self)@.update(
                idx as int,
                true,
            ),
            idx >= NUM_KEYS ==> r == Err::<(), KeypadError>(
                KeypadError::OutOfBoundsKeyIndex { idx },
            ) && final(self)@ == old(self)@,
    {
        if idx < NUM_KEYS {
            self.keys[idx] = true;
            Ok(())
        } else {
            Err(KeypadError::OutOfBoundsKeyIndex { idx })
        }
    }

    /// Marks key `idx` as released, or fails, changing nothing, if there is
    /// no such key.
    pub fn release_key(&mut self, idx: usize) -> (r: Result<(), KeypadError>)
        ensures
            idx < NUM_KEYS ==> r == Ok::<(), KeypadError>(()) && final(self)@ == old(self)@.update(
                idx as int,
                false,
            ),
            idx >= NUM_KEYS ==> r == Err::<(), KeypadError>(
                KeypadError::OutOfBoundsKeyIndex { idx },
            ) && final(self)@ == old(self)@,
    {
        if idx < NUM_KEYS {
            self.keys[idx] = false;
            Ok(())
        } else {
            Err(KeypadError::OutOfBoundsKeyIndex { idx })
        }
    }
}

/// Key state is level-triggered: pressing a key that is already down
/// changes nothing.
pub proof fn lemma_press_twice_is_press_once(keys: Seq<bool>, idx: int)
    requires
        0 <= idx < keys.len(),
    ensures
        keys.update(idx, true).update(idx, true) == keys.update(idx, true),
{
}

} // verus!
