//! The events of the interactive mode, and how one comes out of each poll
//! of the terminal.

use vstd::prelude::*;
use std::time::Duration;
use crate::infrastructure::clock::duration_millis;
use crate::infrastructure::error::GroundhogError;

verus! {

/// A key that plays media.
#[derive(Debug, Clone, Copy, PartialEq, Eq, Structural)]
pub enum MediaKey {
    Play,
    Pause,
    PlayPause,
    Reverse,
    Stop,
    FastForward,
    Rewind,
    TrackNext,
    TrackPrevious,
    Record,
    LowerVolume,
    RaiseVolume,
    MuteVolume,
}

/// A key that modifies others.
#[derive(Debug, Clone, Copy, PartialEq, Eq, Structural)]
pub enum ModifierKey {
    LeftShift,
    LeftControl,
    LeftAlt,
    LeftSuper,
    LeftHyper,
    LeftMeta,
    RightShift,
    RightControl,
    RightAlt,
    RightSuper,
    RightHyper,
    RightMeta,
    IsoLevel3Shift,
    IsoLevel5Shift,
}

/// The code of a key of the keyboard.
#[derive(Debug, Clone, Copy, PartialEq, Eq, Structural)]
pub enum Key {
    Backspace,
    Enter,
    Left,
    Right,
    Up,
    Down,
    Home,
    End,
    PageUp,
    PageDown,
    Tab,
    BackTab,
    Delete,
    Insert,
    /// A function key, by its number.
    F(u8),
    /// A key that types this character.
    Char(char),
    Null,
    Esc,
    CapsLock,
    ScrollLock,
    NumLock,
    PrintScreen,
    Pause,
    Menu,
    KeypadBegin,
    Media(MediaKey),
    Modifier(ModifierKey),
}

/// What drives the interactive mode.
#[derive(Debug, Clone, Copy, PartialEq, Eq, Structural)]
pub enum Event {
    /// A key was pressed.
    Key(Key),
    /// Nothing happened within the tick.
    Tick,
    /// The terminal now has this width and height.
    Resize(u16, u16),
    /// The pointer moved or clicked.
    Mouse,
}

/// What the terminal delivered.
#[derive(Debug, Clone, Copy, PartialEq, Eq, Structural)]
pub enum Input {
    Key(Key),
    Resize(u16, u16),
    Mouse,
    /// Anything else, such as a change of focus or pasted text.
    Other,
}

/// How one poll of the terminal ended.
#[derive(Debug)]
pub enum Polled {
    /// The tick passed without input.
    Idle,
    /// Input arrived before the tick passed.
    Ready(Input),
    /// Polling or reading failed with this message of the system.
    Failed(String),
}

/// Turns polls of the terminal into events.
pub struct EventHandler {
    tick_rate: Duration,
}

impl EventHandler {
    /// The event that a poll without failure stands for: the key, the new
    /// size or the pointer where one was delivered, and a tick where
    /// nothing or anything else was.
    pub open spec fn event_of(polled: Polled) -> Event
        recommends
            !(polled is Failed),
    {
        match polled {
            Polled::Ready(Input::Key(key)) => Event::Key(key),
            Polled::Ready(Input::Resize(width, height)) => Event::Resize(width, height),
            Polled::Ready(Input::Mouse) => Event::Mouse,
            _ => Event::Tick,
        }
    }

    /// Whether `result` is what a poll that ended as `polled` gives: its
    /// event, or for a failed poll a terminal error with the message of
    /// the system.
    pub open spec fn is_next(polled: Polled, result: Result<Event, GroundhogError>) -> bool {
        match polled {
            Polled::Failed(message) => result matches Err(GroundhogError::TUIError(detail))
                && detail@ == message@,
            _ => result == Ok::<Event, GroundhogError>(EventHandler::event_of(polled)),
        }
    }

    /// The time that one poll may take.
    pub closed spec fn tick(&self) -> Duration {
        self.tick_rate
    }

    /// A handler whose polls take at most `tick_rate`.
    pub fn new(tick_rate: Duration) -> (handler: Self)
        ensures
            handler.tick() == tick_rate,
    {
        Self { tick_rate }
    }

    /// Returns the time that one poll may take.
    pub fn tick_rate(&self) -> (tick_rate: Duration)
        ensures
            tick_rate == self.tick(),
    {
        self.tick_rate
    }

    /// Gives the next event, from how the poll of the terminal ended.
    pub fn next(&self, polled: Polled) -> (result: Result<Event, GroundhogError>)
        ensures
            EventHandler::is_next(polled, result),
    {
        EventHandler::decode(polled)
    }

    /// Gives the event that a poll of the terminal stands for, whatever
    /// its tick was.
    pub fn decode(polled: Polled) -> (result: Result<Event, GroundhogError>)
        ensures
            EventHandler::is_next(polled, result),
    {
        match polled {
            Polled::Idle => Ok(Event::Tick),
            Polled::Ready(input) => match input {
                Input::Key(key) => Ok(Event::Key(key)),
                Input::Resize(width, height) => Ok(Event::Resize(width, height)),
                Input::Mouse => Ok(Event::Mouse),
                Input::Other => Ok(Event::Tick),
            },
            Polled::Failed(message) => Err(GroundhogError::TUIError(message)),
        }
    }
}

impl Default for EventHandler {
    /// A handler with a tick of 100 milliseconds.
    fn default() -> (handler: Self)
        ensures
            duration_millis(handler.tick()) == 100,
    {
        Self::new(Duration::from_millis(100))
    }
}

} // verus!
