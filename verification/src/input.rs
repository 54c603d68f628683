//! Keyboard input as the browser reads it, and the command each input
//! stands for.

use vstd::prelude::*;

verus! {

/// A key of the keyboard, as far as the browser tells keys apart.
#[derive(Clone, Copy, Debug, PartialEq, Eq, Structural)]
pub enum Key {
    Up,
    Down,
    Enter,
    Right,
    Esc,
    Left,
    Char(char),
    Other,
}

/// One event of a key: which key, whether Control was held, and whether
/// the key went down (rather than being released or repeated).
#[derive(Clone, Copy, Debug, PartialEq, Eq, Structural)]
pub struct KeyInput {
    pub key: Key,
    pub control: bool,
    pub pressed: bool,
}

/// One event read from the terminal.
#[derive(Clone, Copy, Debug, PartialEq, Eq, Structural)]
pub enum Input {
    Key(KeyInput),
    /// Anything that is not a key event.
    Other,
}

/// What an input asks the browser to do.
#[derive(Clone, Copy, Debug, PartialEq, Eq, Structural)]
pub enum Command {
    MoveUp,
    MoveDown,
    Activate,
    GoBack,
    Quit,
    /// An input without a meaning: nothing changes, and the screen is
    /// redrawn.
    Nothing,
}

/// The command of an input: pressing Up and Down moves, Enter and Right
/// activate, Esc and Left go back, Control-c quits. Every other input has
/// no meaning: another key, a key that is released or repeated, and what
/// is not a key event at all.
pub open spec fn command_of(input: Input) -> Command {
    match input {
        Input::Other => Command::Nothing,
        Input::Key(k) => if !k.pressed {
            Command::Nothing
        } else {
            match k.key {
                Key::Up => Command::MoveUp,
                Key::Down => Command::MoveDown,
                Key::Enter | Key::Right => Command::Activate,
                Key::Esc | Key::Left => Command::GoBack,
                Key::Char(c) => if c == 'c' && k.control {
                    Command::Quit
                } else {
                    Command::Nothing
                },
                Key::Other => Command::Nothing,
            }
        },
    }
}

/// Reads the command off an input.
pub fn command(input: Input) -> (r: Command)
    ensures
        r == command_of(input),
{
    match input {
        Input::Other => Command::Nothing,
        Input::Key(k) => {
            if !k.pressed {
                return Command::Nothing;
            }
            match k.key {
                Key::Up => Command::MoveUp,
                Key::Down => Command::MoveDown,
                Key::Enter => Command::Activate,
                Key::Right => Command::Activate,
                Key::Esc => Command::GoBack,
                Key::Left => Command::GoBack,
                Key::Char(c) => {
                    if c == 'c' && k.control {
                        Command::Quit
                    } else {
                        Command::Nothing
                    }
                },
                Key::Other => Command::Nothing,
            }
        },
    }
}

} // verus!
