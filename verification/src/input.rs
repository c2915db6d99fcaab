//! What the keyboard asks of the game.

use vstd::prelude::*;
use crate::grid::Direction;

verus! {

/// A key, as far as the game tells keys apart.
#[derive(Clone, Copy, Debug, PartialEq, Eq)]
pub enum Key {
    Left,
    Right,
    Up,
    Down,
    Esc,
    Char(char),
    Other,
}

/// Something that happened at the terminal: a key went down, or anything
/// else (a key released or held, the mouse, a resize).
#[derive(Clone, Copy, Debug, PartialEq, Eq)]
pub enum InputEvent {
    Press(Key),
    Other,
}

/// What an event asks for.
#[derive(Clone, Copy, Debug, PartialEq, Eq)]
pub enum Command {
    /// Head the snake this way.
    Turn(Direction),
    /// Leave the game at once.
    Quit,
    /// Nothing.
    Ignore,
}

/// The command an event stands for: an arrow key turns the snake the way the
/// arrow points, `q` and escape quit, and everything else is ignored.
pub open spec fn command_for(event: InputEvent) -> Command {
    match event {
        InputEvent::Press(Key::Left) => Command::Turn(Direction::Left),
        InputEvent::Press(Key::Right) => Command::Turn(Direction::Right),
        InputEvent::Press(Key::Up) => Command::Turn(Direction::Up),
        InputEvent::Press(Key::Down) => Command::Turn(Direction::Down),
        InputEvent::Press(Key::Esc) => Command::Quit,
        InputEvent::Press(Key::Char(c)) => if c == 'q' {
            Command::Quit
        } else {
            Command::Ignore
        },
        _ => Command::Ignore,
    }
}

/// Reads an event as a command.
pub fn interpret(event: InputEvent) -> (command: Command)
    ensures
        command == command_for(event),
        command is Quit <==> event == InputEvent::Press(Key::Esc) || event == InputEvent::Press(
            Key::Char('q'),
        ),
{
    match event {
        InputEvent::Press(key) => match key {
            Key::Left => Command::Turn(Direction::Left),
            Key::Right => Command::Turn(Direction::Right),
            Key::Up => Command::Turn(Direction::Up),
            Key::Down => Command::Turn(Direction::Down),
            Key::Esc => Command::Quit,
            Key::Char(c) => if c == 'q' {
                Command::Quit
            } else {
                Command::Ignore
            },
            Key::Other => Command::Ignore,
        },
        InputEvent::Other => Command::Ignore,
    }
}

} // verus!
