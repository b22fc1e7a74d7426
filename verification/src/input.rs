//! The event translator: each raw keyboard event, reduced to the parts
//! the engine reads, maps to exactly one command.

use vstd::prelude::*;

use crate::engine::Command;

verus! {

/// A keyboard event as the engine sees it: the keys it reacts to, a
/// control chord with its letter, a printable character, or anything
/// else.
#[derive(Clone, Copy, Debug, PartialEq, Eq, Structural)]
pub enum KeyInput {
    Escape,
    Enter,
    Backspace,
    Up,
    Down,
    Ctrl(char),
    Char(char),
    Other,
}

/// The one command each key stands for: Escape cancels, Enter confirms,
/// Backspace removes the last query character, Up/Ctrl-p and Down/Ctrl-n
/// move the selection, Ctrl-r toggles the mode, a printable character is
/// appended to the query, and everything else is ignored.
pub open spec fn spec_translate(k: KeyInput) -> Command {
    match k {
        KeyInput::Escape => Command::Cancel,
        KeyInput::Enter => Command::Confirm,
        KeyInput::Backspace => Command::RemoveLastChar,
        KeyInput::Up => Command::MoveUp,
        KeyInput::Down => Command::MoveDown,
        KeyInput::Ctrl(c) => if c == 'p' {
            Command::MoveUp
        } else if c == 'n' {
            Command::MoveDown
        } else if c == 'r' {
            Command::ToggleMode
        } else {
            Command::Ignore
        },
        KeyInput::Char(c) => Command::AppendChar(c),
        KeyInput::Other => Command::Ignore,
    }
}

/// Translate one key event into the command it stands for.
pub fn translate_key(k: KeyInput) -> (c: Command)
    ensures
        c == spec_translate(k),
{
    match k {
        KeyInput::Escape => Command::Cancel,
        KeyInput::Enter => Command::Confirm,
        KeyInput::Backspace => Command::RemoveLastChar,
        KeyInput::Up => Command::MoveUp,
        KeyInput::Down => Command::MoveDown,
        KeyInput::Ctrl(c) => if c == 'p' {
            Command::MoveUp
        } else if c == 'n' {
            Command::MoveDown
        } else if c == 'r' {
            Command::ToggleMode
        } else {
            Command::Ignore
        },
        KeyInput::Char(c) => Command::AppendChar(c),
        KeyInput::Other => Command::Ignore,
    }
}

} // verus!
