//! Keyboard input as the console reads it.

use vstd::prelude::*;

verus! {

/// The keys that the console tells apart. Every other key is `Other`.
#[derive(Clone, Copy, Debug, PartialEq, Eq, Structural)]
pub enum KeyCode {
    Enter,
    Backspace,
    Tab,
    Char(char),
    Other,
}

/// One key press: the key and the modifier bits held with it.
#[derive(Clone, Copy, Debug, PartialEq, Eq, Structural)]
pub struct KeyEvent {
    pub code: KeyCode,
    pub modifiers: u8,
}

/// Modifier bits of a key pressed alone.
pub const NO_MODIFIERS: u8 = 0;

/// A raw terminal event: a key press, or anything else the terminal reports
/// (a resize, the mouse), which only wakes the console up.
#[derive(Clone, Copy, Debug, PartialEq, Eq, Structural)]
pub enum Event {
    Key(KeyEvent),
    Other,
}

/// The configurable key bindings.
#[derive(Clone, Copy, Debug, PartialEq, Eq, Structural)]
pub struct KeyConfig {
    pub exit_key: KeyEvent,
}

impl KeyConfig {
    /// The bindings of a console that was not configured: `q` alone quits.
    pub open spec fn standard() -> KeyConfig {
        KeyConfig { exit_key: KeyEvent { code: KeyCode::Char('q'), modifiers: NO_MODIFIERS } }
    }
}

impl Default for KeyConfig {
    fn default() -> (config: Self)
        ensures
            config == KeyConfig::standard(),
    {
        KeyConfig { exit_key: KeyEvent { code: KeyCode::Char('q'), modifiers: NO_MODIFIERS } }
    }
}

} // verus!
