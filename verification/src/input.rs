//! The keyboard vocabulary of the dashboard.

use vstd::prelude::*;

verus! {

/// How long one poll for a key waits, in milliseconds: short enough that a
/// file change is noticed promptly, long enough not to spin.
pub const POLL_TIMEOUT_MS: u64 = 200;

/// The key of a key press, as far as the dashboard tells keys apart.
#[derive(Debug, Clone, Copy, PartialEq, Eq, Structural)]
pub enum Key {
    /// A key that produces a character.
    Char(char),
    /// The Enter key.
    Enter,
    /// The Escape key.
    Esc,
    /// Any other key.
    Other,
}

/// One key press: the key, and whether Control was held with it.
#[derive(Debug, Clone, Copy, PartialEq, Eq, Structural)]
pub struct KeyPress {
    pub key: Key,
    pub control: bool,
}

/// What the user can ask of the dashboard.
#[derive(Debug, Clone, Copy, PartialEq, Eq, Structural)]
pub enum Command {
    /// End the session.
    Quit,
    /// Show or hide the hint of the current exercise.
    ToggleHint,
    /// Show or hide the list of all exercises.
    ToggleList,
    /// Go to the next exercise.
    Next,
    /// Go to the previous exercise.
    Previous,
    /// Test the current exercise again.
    Retest,
}

/// The command that a key press stands for, if any: `q`, Esc or Ctrl-C quit,
/// `h` and `l` toggle the hint and the list, `n` and `p` move, `r` and Enter
/// retest. Control matters for `c` only. Every other key means nothing.
pub open spec fn command_of(press: KeyPress) -> Option<Command> {
    match press.key {
        Key::Esc => Some(Command::Quit),
        Key::Enter => Some(Command::Retest),
        Key::Other => None,
        Key::Char(c) => if c == 'q' {
            Some(Command::Quit)
        } else if c == 'c' {
            if press.control {
                Some(Command::Quit)
            } else {
                None
            }
        } else if c == 'h' {
            Some(Command::ToggleHint)
        } else if c == 'l' {
            Some(Command::ToggleList)
        } else if c == 'n' {
            Some(Command::Next)
        } else if c == 'p' {
            Some(Command::Previous)
        } else if c == 'r' {
            Some(Command::Retest)
        } else {
            None
        },
    }
}

/// Whether the command ends the session.
pub open spec fn is_quit(cmd: Option<Command>) -> bool {
    cmd == Some(Command::Quit)
}

/// Decodes one key press.
pub fn decode_key(press: KeyPress) -> (cmd: Option<Command>)
    ensures
        cmd == command_of(press),
{
    match press.key {
        Key::Esc => Some(Command::Quit),
        Key::Enter => Some(Command::Retest),
        Key::Other => None,
        Key::Char(c) => {
            if c == 'q' {
                Some(Command::Quit)
            } else if c == 'c' {
                if press.control {
                    Some(Command::Quit)
                } else {
                    None
                }
            } else if c == 'h' {
                Some(Command::ToggleHint)
            } else if c == 'l' {
                Some(Command::ToggleList)
            } else if c == 'n' {
                Some(Command::Next)
            } else if c == 'p' {
                Some(Command::Previous)
            } else if c == 'r' {
                Some(Command::Retest)
            } else {
                None
            }
        },
    }
}

/// Decodes a key press once every exercise has passed: only the keys that
/// quit still mean something.
pub fn decode_quit_key(press: KeyPress) -> (quit: bool)
    ensures
        quit == is_quit(command_of(press)),
{
    match decode_key(press) {
        Some(Command::Quit) => true,
        _ => false,
    }
}

} // verus!
