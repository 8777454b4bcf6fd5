//! Events that drive a game: ticks, key presses and terminal resizes.
use vstd::prelude::*;

verus! {

/// The modifier keys held down with a key.
#[derive(Debug, Clone, Copy, PartialEq, Eq, Hash, Structural)]
pub struct KeyModifiers {
    pub shift: bool,
    pub control: bool,
    pub alt: bool,
}

impl KeyModifiers {
    /// No modifier key.
    pub fn none() -> (modifiers: Self)
        ensures
            modifiers == (KeyModifiers { shift: false, control: false, alt: false }),
    {
        KeyModifiers { shift: false, control: false, alt: false }
    }
}

/// A key of the keyboard.
#[derive(Debug, Clone, Copy, PartialEq, Eq, Hash, Structural)]
pub enum KeyCode {
    Backspace,
    Enter,
    Left,
    Right,
    Up,
    Down,
    Home,
    End,
    PageUp,
    PageDown,
    Tab,
    /// Shift + Tab.
    BackTab,
    Delete,
    Insert,
    /// A function key: `F(1)` is F1.
    F(u8),
    /// A character.
    Char(char),
    Null,
    Esc,
}

/// A key press.
#[derive(Debug, Clone, Copy, PartialEq, Eq, Hash, Structural)]
pub struct KeyEvent {
    /// The key itself.
    pub code: KeyCode,
    /// The modifier keys held down with it.
    pub modifiers: KeyModifiers,
}

impl KeyEvent {
    pub fn new(code: KeyCode, modifiers: KeyModifiers) -> (event: Self)
        ensures
            event == (KeyEvent { code, modifiers }),
    {
        KeyEvent { code, modifiers }
    }
}

/// What a terminal reports.
#[derive(Debug, Clone, Copy, PartialEq, Eq, Structural)]
pub enum Input {
    /// A key was pressed.
    Key(KeyEvent),
    /// The mouse was moved or pressed.
    Mouse,
    /// The terminal was resized to this many columns and rows.
    Resize(u16, u16),
}

/// Event. Either a tick event, a key press event or a resize.
#[derive(Debug, Clone, Copy, PartialEq, Eq, Structural)]
pub enum Event {
    /// Generated for every frame.
    Tick,
    /// A key press.
    Key(KeyEvent),
    /// The terminal was resized to this many columns and rows.
    Resize(u16, u16),
}

impl Event {
    /// The event that a report of the terminal raises: a key press or a
    /// resize is passed on, the mouse raises none.
    pub fn from_input(input: Input) -> (event: Option<Event>)
        ensures
            event == match input {
                Input::Key(key) => Some(Event::Key(key)),
                Input::Mouse => None,
                Input::Resize(width, height) => Some(Event::Resize(width, height)),
            },
    {
        match input {
            Input::Key(key) => Some(Event::Key(key)),
            Input::Mouse => None,
            Input::Resize(width, height) => Some(Event::Resize(width, height)),
        }
    }
}

/// The type of events to listen for.
#[derive(Debug, Clone, Copy, PartialEq, Eq, Structural)]
pub enum EventModel {
    /// Generate ticks at this many frames per second.
    Fps(u64),
    /// Block until an event is raised.
    Blocking,
}

impl EventModel {
    /// The pause between two ticks in milliseconds, where the model ticks at
    /// all.
    pub open spec fn spec_tick_millis(self) -> Option<u64> {
        match self {
            EventModel::Fps(fps) => Some(1000u64 / fps),
            EventModel::Blocking => None,
        }
    }

    /// The pause between two ticks in milliseconds, where the model ticks at
    /// all. There is no such pause for a rate of zero frames per second.
    #[verifier::when_used_as_spec(spec_tick_millis)]
    pub fn tick_millis(self) -> (millis: Option<u64>)
        requires
            self != EventModel::Fps(0),
        ensures
            millis == self.spec_tick_millis(),
    {
        match self {
            EventModel::Fps(fps) => Some(1000 / fps),
            EventModel::Blocking => None,
        }
    }
}

} // verus!
