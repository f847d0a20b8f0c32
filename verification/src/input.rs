//! The keyboard vocabulary of the game, and the translation of raw key
//! events into it.

use vstd::prelude::*;

verus! {

/// A key as the game understands it.
#[derive(Copy, Clone, Debug, PartialEq, Eq, Structural)]
pub enum GameKey {
    Printable(char),
    SpecialKey(GameKeyCode),
}

/// One key press.
#[derive(Copy, Clone, Debug, PartialEq, Eq, Structural)]
pub struct KeyboardInput {
    pub key: GameKey,
}

/// The keys that print nothing.
#[derive(Copy, Clone, Debug, PartialEq, Eq, Structural)]
pub enum GameKeyCode {
    // Arrow keys
    Up,
    Down,
    Left,
    Right,
    // Special
    Shift,
    Escape,
    // Anything else
    NoKey,
}

/// The physical keys that the translation tells apart.
#[derive(Copy, Clone, Debug, PartialEq, Eq, Structural)]
pub enum KeyCode {
    Up,
    Down,
    Left,
    Right,
    Number5,
    Number6,
    Number8,
    Shift,
    Escape,
    Other,
}

/// A raw key event, reduced to what the translation reads: the physical
/// key, the character it prints, and whether shift was held.
#[derive(Copy, Clone, Debug, PartialEq, Eq, Structural)]
pub struct Key {
    pub code: KeyCode,
    pub printable: char,
    pub shift: bool,
}

/// Turns the key events of one backend into `KeyboardInput`.
pub trait InputComponent<T> {
    /// What the raw event `key` means to the game.
    fn translate_input(&self, key: T) -> KeyboardInput;
}

/// Translates the key events of a libtcod console.
pub struct TcodInputComponent;

impl TcodInputComponent {
    /// A translator; it keeps no state.
    pub fn new() -> TcodInputComponent {
        TcodInputComponent
    }
}

/// What a raw key event means to the game.
///
/// With shift held only the number keys 5, 6 and 8 mean anything: they
/// print `%`, `^` and `*`. Without shift a printed `/` wins over the
/// physical key.
pub open spec fn translated_key(k: Key) -> GameKey {
    if k.shift {
        match k.code {
            KeyCode::Number5 => GameKey::Printable('%'),
            KeyCode::Number6 => GameKey::Printable('^'),
            KeyCode::Number8 => GameKey::Printable('*'),
            _ => GameKey::SpecialKey(GameKeyCode::NoKey),
        }
    } else if k.printable == '/' {
        GameKey::Printable('/')
    } else {
        match k.code {
            KeyCode::Up => GameKey::SpecialKey(GameKeyCode::Up),
            KeyCode::Down => GameKey::SpecialKey(GameKeyCode::Down),
            KeyCode::Left => GameKey::SpecialKey(GameKeyCode::Left),
            KeyCode::Right => GameKey::SpecialKey(GameKeyCode::Right),
            KeyCode::Shift => GameKey::SpecialKey(GameKeyCode::Shift),
            KeyCode::Escape => GameKey::SpecialKey(GameKeyCode::Escape),
            _ => GameKey::SpecialKey(GameKeyCode::NoKey),
        }
    }
}

impl InputComponent<Key> for TcodInputComponent {
    fn translate_input(&self, k: Key) -> (input: KeyboardInput)
        ensures
            input.key == translated_key(k),
    {
        let key: GameKey = if k.shift {
            match k.code {
                KeyCode::Number5 => GameKey::Printable('%'),
                KeyCode::Number6 => GameKey::Printable('^'),
                KeyCode::Number8 => GameKey::Printable('*'),
                _ => GameKey::SpecialKey(GameKeyCode::NoKey),
            }
        } else if k.printable == '/' {
            GameKey::Printable('/')
        } else {
            match k.code {
                KeyCode::Up => GameKey::SpecialKey(GameKeyCode::Up),
                KeyCode::Down => GameKey::SpecialKey(GameKeyCode::Down),
                KeyCode::Left => GameKey::SpecialKey(GameKeyCode::Left),
                KeyCode::Right => GameKey::SpecialKey(GameKeyCode::Right),
                KeyCode::Shift => GameKey::SpecialKey(GameKeyCode::Shift),
                KeyCode::Escape => GameKey::SpecialKey(GameKeyCode::Escape),
                _ => GameKey::SpecialKey(GameKeyCode::NoKey),
            }
        };

        KeyboardInput { key: key }
    }
}

} // verus!
