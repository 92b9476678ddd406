//! The keys of the paste chord.

use vstd::prelude::*;

verus! {

/// The letter that, struck while the paste modifier is down, pastes.
pub const PASTE_LETTER: char = 'v';

/// The two conventions for clipboard shortcuts.
#[derive(Clone, Copy, Debug, PartialEq, Eq, Structural)]
pub enum Platform {
    /// Shortcuts are struck with Meta (the Command key).
    MacOs,
    /// Shortcuts are struck with Control.
    Other,
}

/// A key of the chord, as the input emitter names it.
#[derive(Clone, Copy, Debug, PartialEq, Eq, Structural)]
pub enum Key {
    Meta,
    Control,
    /// The key that produces this character in the current layout.
    Unicode(char),
}

/// What is done to a key.
#[derive(Clone, Copy, Debug, PartialEq, Eq, Structural)]
pub enum Direction {
    Press,
    Release,
    /// A press followed at once by a release.
    Click,
}

/// One event for the input emitter.
#[derive(Clone, Copy, Debug, PartialEq, Eq, Structural)]
pub struct KeyStroke {
    pub key: Key,
    pub direction: Direction,
}

impl Platform {
    /// The modifier of this platform's paste shortcut.
    pub open spec fn modifier(self) -> Key {
        match self {
            Platform::MacOs => Key::Meta,
            Platform::Other => Key::Control,
        }
    }

    /// The modifier of this platform's paste shortcut.
    pub fn paste_modifier(self) -> (key: Key)
        ensures
            key == self.modifier(),
    {
        match self {
            Platform::MacOs => Key::Meta,
            Platform::Other => Key::Control,
        }
    }
}

/// The paste chord with `modifier`: the modifier goes down, the letter is
/// clicked, the modifier comes up. Three separate events, since some
/// applications only react to discrete key-down and key-up pairs.
pub open spec fn chord(modifier: Key) -> Seq<KeyStroke> {
    seq![
        KeyStroke { key: modifier, direction: Direction::Press },
        KeyStroke { key: Key::Unicode(PASTE_LETTER), direction: Direction::Click },
        KeyStroke { key: modifier, direction: Direction::Release },
    ]
}

/// The paste chord of `platform`, in the order in which it is struck.
pub fn paste_chord(platform: Platform) -> (strokes: Vec<KeyStroke>)
    ensures
        strokes@ == chord(platform.modifier()),
{
    let modifier = platform.paste_modifier();
    vec![
        KeyStroke { key: modifier, direction: Direction::Press },
        KeyStroke { key: Key::Unicode(PASTE_LETTER), direction: Direction::Click },
        KeyStroke { key: modifier, direction: Direction::Release },
    ]
}

} // verus!
