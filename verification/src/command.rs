//! The command vocabulary: keys as the host reports them, the closed set of
//! move commands, and the owner tag that ties a command to a player.

use vstd::prelude::*;

verus! {

/// A discrete movement command, the only instruction the core understands.
#[derive(Clone, Copy, Debug, PartialEq, Eq, Structural)]
pub enum Command {
    Left,
    Right,
    Up,
    Down,
}

/// A key identifier from the host's held-key snapshot. The four arrow keys
/// are recognized; every other key is carried as an opaque code and ignored.
#[derive(Clone, Copy, Debug, PartialEq, Eq, Structural)]
pub enum Key {
    Left,
    Right,
    Up,
    Down,
    Other(u32),
}

/// A command tagged with the identifier of the player that issued it.
#[derive(Clone, Copy, Debug, PartialEq, Eq, Structural)]
pub struct OwnedCommand {
    pub owner_id: u8,
    pub command: Command,
}

/// The unit direction a command contributes along the x axis.
pub open spec fn delta_x(c: Command) -> int {
    match c {
        Command::Left => -1,
        Command::Right => 1,
        Command::Up => 0,
        Command::Down => 0,
    }
}

/// The unit direction a command contributes along the y axis.
pub open spec fn delta_y(c: Command) -> int {
    match c {
        Command::Left => 0,
        Command::Right => 0,
        Command::Up => 1,
        Command::Down => -1,
    }
}

/// The command a held key maps to, if the key is recognized.
pub open spec fn command_of_key(k: Key) -> Option<Command> {
    match k {
        Key::Left => Some(Command::Left),
        Key::Right => Some(Command::Right),
        Key::Up => Some(Command::Up),
        Key::Down => Some(Command::Down),
        Key::Other(_) => None,
    }
}

} // verus!
