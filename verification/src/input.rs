//! What the terminal reports, and the action that each report stands for.

use vstd::prelude::*;

use crate::editor::Action;
use crate::stuff::Position;
use crate::stuff::Size;

verus! {

/// A key of the keyboard, as far as the viewer tells keys apart.
#[derive(Debug, Clone, Copy, PartialEq, Eq, Structural)]
pub enum Key {
    /// The left arrow.
    Left,
    /// The right arrow.
    Right,
    /// The up arrow.
    Up,
    /// The down arrow.
    Down,
    /// The escape key.
    Esc,
    /// A key that gives a character.
    Char(char),
    /// Any other key.
    Other,
}

/// The modifier keys that are held down with a key.
#[derive(Debug, Clone, Copy, PartialEq, Eq, Structural)]
pub struct Modifiers {
    pub shift: bool,
    pub control: bool,
    pub alt: bool,
    pub super_key: bool,
    pub hyper: bool,
    pub meta: bool,
}

impl Modifiers {
    /// Whether the control key is held down and no other modifier is.
    pub open spec fn only_control(self) -> bool {
        self.control && !self.shift && !self.alt && !self.super_key && !self.hyper && !self.meta
    }

    /// Whether the control key is held down and no other modifier is.
    pub fn is_only_control(&self) -> (r: bool)
        ensures
            r == self.only_control(),
    {
        self.control && !self.shift && !self.alt && !self.super_key && !self.hyper && !self.meta
    }
}

/// A report of the terminal.
#[derive(Debug, PartialEq, Eq)]
pub enum TermEvent {
    /// The terminal's window got the focus.
    FocusGained,
    /// The terminal's window lost the focus.
    FocusLost,
    /// A key was pressed, with these modifiers held down.
    Key(Key, Modifiers),
    /// The mouse did something on this cell.
    Mouse(Position),
    /// This text was pasted.
    Paste(String),
    /// The terminal's window has this size now.
    Resize(Size),
}

/// The source of the user's actions.
#[derive(Debug, Clone, Copy, PartialEq, Eq, Structural)]
pub struct TermInput;

impl TermInput {
    /// The action that a report stands for.
    ///
    /// An arrow asks for a step in its direction, whatever modifiers are
    /// held down. `c` with the control key alone, `q` and the escape key
    /// ask to quit; `s` asks for the other panel; no other key is bound.
    /// What is not a key is passed on as it is.
    pub open spec fn decoded(event: TermEvent) -> Action {
        match event {
            TermEvent::Key(Key::Left, _) => Action::Left,
            TermEvent::Key(Key::Down, _) => Action::Down,
            TermEvent::Key(Key::Up, _) => Action::Up,
            TermEvent::Key(Key::Right, _) => Action::Right,
            TermEvent::Key(Key::Char(c), modifiers) => if c == 'c' && modifiers.only_control() {
                Action::Quit
            } else if c == 'q' {
                Action::Quit
            } else if c == 's' {
                Action::SwitchPanel
            } else {
                Action::UnboundKey
            },
            TermEvent::Key(Key::Esc, _) => Action::Quit,
            TermEvent::Key(Key::Other, _) => Action::UnboundKey,
            TermEvent::FocusGained => Action::OnFocus,
            TermEvent::FocusLost => Action::OnBlur,
            TermEvent::Mouse(position) => Action::Mouse(position),
            TermEvent::Paste(text) => Action::Paste(text),
            TermEvent::Resize(size) => Action::Resize(size),
        }
    }

    /// The action that a report stands for: see [`TermInput::decoded`].
    pub fn decode(event: TermEvent) -> (r: Action)
        ensures
            r == Self::decoded(event),
    {
        match event {
            TermEvent::Key(Key::Left, _) => Action::Left,
            TermEvent::Key(Key::Down, _) => Action::Down,
            TermEvent::Key(Key::Up, _) => Action::Up,
            TermEvent::Key(Key::Right, _) => Action::Right,
            TermEvent::Key(Key::Char(c), modifiers) => {
                if c == 'c' && modifiers.is_only_control() {
                    Action::Quit
                } else if c == 'q' {
                    Action::Quit
                } else if c == 's' {
                    Action::SwitchPanel
                } else {
                    Action::UnboundKey
                }
            },
            TermEvent::Key(Key::Esc, _) => Action::Quit,
            TermEvent::Key(Key::Other, _) => Action::UnboundKey,
            TermEvent::FocusGained => Action::OnFocus,
            TermEvent::FocusLost => Action::OnBlur,
            TermEvent::Mouse(position) => Action::Mouse(position),
            TermEvent::Paste(text) => Action::Paste(text),
            TermEvent::Resize(size) => Action::Resize(size),
        }
    }
}

} // verus!
