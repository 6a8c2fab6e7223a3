//! The keyboard as the finder reads it, and what each key asks for.

use vstd::prelude::*;

verus! {

/// The key that was struck.
#[derive(Debug, Clone, Copy, PartialEq, Eq, Structural)]
pub enum KeyCode {
    Char(char),
    Esc,
    Enter,
    Backspace,
    Up,
    Down,
    Tab,
    BackTab,
    /// Any key that the finder does not tell apart.
    Other,
}

/// The modifier keys held down with a key. `other` stands for any modifier
/// besides Control and Shift.
#[derive(Debug, Clone, Copy, PartialEq, Eq, Structural)]
pub struct Modifiers {
    pub control: bool,
    pub shift: bool,
    pub other: bool,
}

/// One event of the keyboard.
#[derive(Debug, Clone, Copy, PartialEq, Eq, Structural)]
pub struct Key {
    pub code: KeyCode,
    pub modifiers: Modifiers,
    /// Whether the event reports the key going up rather than down.
    pub released: bool,
}

/// What the user asks of the finder.
#[derive(Debug, Clone, Copy, PartialEq, Eq, Structural)]
pub enum Input {
    /// Append a character to the query.
    Char(char),
    /// Remove the query's last character.
    Backspace,
    /// Move the selection one line up.
    MoveUp,
    /// Move the selection one line down.
    MoveDown,
    /// Go to the selected record.
    Confirm,
    /// Leave without going anywhere.
    Cancel,
}

impl Modifiers {
    /// No modifier is held.
    pub open spec fn none(self) -> bool {
        !self.control && !self.shift && !self.other
    }

    /// Control is held, and nothing else.
    pub open spec fn only_control(self) -> bool {
        self.control && !self.shift && !self.other
    }

    /// Shift is held, and nothing else.
    pub open spec fn only_shift(self) -> bool {
        !self.control && self.shift && !self.other
    }
}

impl Key {
    /// The request that a key stands for, if any. A key going up asks for
    /// nothing. With Control alone, `j` and `k` move the selection down and
    /// up; with Shift alone, the back tab moves it up. Without a modifier,
    /// Escape cancels, Enter confirms, Backspace erases, the arrows and the
    /// two tabs move the selection, and a character is typed. Any other
    /// combination asks for nothing.
    pub open spec fn input(self) -> Option<Input> {
        if self.released {
            None
        } else if self.modifiers.only_control() {
            match self.code {
                KeyCode::Char(c) => if c == 'j' {
                    Some(Input::MoveDown)
                } else if c == 'k' {
                    Some(Input::MoveUp)
                } else {
                    None
                },
                _ => None,
            }
        } else if self.modifiers.only_shift() {
            match self.code {
                KeyCode::BackTab => Some(Input::MoveUp),
                _ => None,
            }
        } else if self.modifiers.none() {
            match self.code {
                KeyCode::Esc => Some(Input::Cancel),
                KeyCode::Char(c) => Some(Input::Char(c)),
                KeyCode::Up => Some(Input::MoveUp),
                KeyCode::BackTab => Some(Input::MoveUp),
                KeyCode::Down => Some(Input::MoveDown),
                KeyCode::Tab => Some(Input::MoveDown),
                KeyCode::Backspace => Some(Input::Backspace),
                KeyCode::Enter => Some(Input::Confirm),
                KeyCode::Other => None,
            }
        } else {
            None
        }
    }
}

/// Reads a key as a request.
pub fn key_input(key: &Key) -> (res: Option<Input>)
    ensures
        res == key.input(),
{
    if key.released {
        return None;
    }
    let held = key.modifiers;
    if held.control && !held.shift && !held.other {
        match key.code {
            KeyCode::Char('j') => Some(Input::MoveDown),
            KeyCode::Char('k') => Some(Input::MoveUp),
            _ => None,
        }
    } else if held.shift && !held.control && !held.other {
        match key.code {
            KeyCode::BackTab => Some(Input::MoveUp),
            _ => None,
        }
    } else if !held.control && !held.shift && !held.other {
        match key.code {
            KeyCode::Esc => Some(Input::Cancel),
            KeyCode::Char(c) => Some(Input::Char(c)),
            KeyCode::Up | KeyCode::BackTab => Some(Input::MoveUp),
            KeyCode::Down | KeyCode::Tab => Some(Input::MoveDown),
            KeyCode::Backspace => Some(Input::Backspace),
            KeyCode::Enter => Some(Input::Confirm),
            KeyCode::Other => None,
        }
    } else {
        None
    }
}

} // verus!
