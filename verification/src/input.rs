//! The keys that steer the game.

use vstd::prelude::*;

verus! {

/// A key of the keyboard, without its modifiers.
#[derive(Debug, Clone, Copy, PartialEq, Eq, Structural)]
pub enum Key {
    Backspace,
    Enter,
    Left,
    Right,
    Up,
    Down,
    Home,
    End,
    PageUp,
    PageDown,
    Tab,
    BackTab,
    Delete,
    Insert,
    /// A function key, by its number.
    F(u8),
    /// A key that types a character.
    Char(char),
    Esc,
}

/// Whether `key` is among the keys held down.
pub fn is_held(pressed_keys: &Vec<Key>, key: Key) -> (held: bool)
    ensures
        held == pressed_keys@.contains(key),
{
    let mut i: usize = 0;
    while i < pressed_keys.len()
        invariant
            i <= pressed_keys.len(),
            forall|j: int| 0 <= j < i ==> pressed_keys@[j] != key,
        decreases pressed_keys.len() - i,
    {
        if pressed_keys[i] == key {
            return true;
        }
        i += 1;
    }
    false
}

} // verus!
