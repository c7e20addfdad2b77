//! What the program around the game decides from one frame to the next:
//! what an input asks for, how long a frame lasts, which cells form the
//! border of the screen and where a centred line of text begins.

use vstd::prelude::*;

verus! {

/// Milliseconds that a frame lasts at the first level.
pub const FIRST_FRAME_MS: u64 = 40;

/// What the player can ask for.
#[derive(Debug, Clone, Copy, PartialEq, Eq, Structural)]
pub enum Command {
    Jump,
    Restart,
    Quit,
}

/// A key of the keyboard, as far as the game tells keys apart.
#[derive(Debug, Clone, Copy, PartialEq, Eq, Structural)]
pub enum Key {
    Char(char),
    Escape,
    Other,
}

/// What a key asks for: `i` a jump, `r` a restart, escape the end; any
/// other key nothing.
pub open spec fn key_meaning(key: Key) -> Option<Command> {
    match key {
        Key::Char(c) => if c == 'i' {
            Some(Command::Jump)
        } else if c == 'r' {
            Some(Command::Restart)
        } else {
            None
        },
        Key::Escape => Some(Command::Quit),
        Key::Other => None,
    }
}

/// What a byte from the serial line asks for: the letters `i` and `j` a
/// jump; any other byte nothing.
pub open spec fn serial_meaning(byte: u8) -> Option<Command> {
    if byte == 'i' as u8 || byte == 'j' as u8 {
        Some(Command::Jump)
    } else {
        None
    }
}

/// Whether the cell in column `x` and row `y` lies on the edge of a screen
/// of the given size.
pub open spec fn on_border(x: u16, y: u16, width: u16, height: u16) -> bool {
    y == 0 || y == height - 1 || x == 0 || x == width - 1
}

/// What a key asks for, see [`key_meaning`].
pub fn key_command(key: Key) -> (command: Option<Command>)
    ensures
        command == key_meaning(key),
{
    match key {
        Key::Char('i') => Some(Command::Jump),
        Key::Char('r') => Some(Command::Restart),
        Key::Escape => Some(Command::Quit),
        _ => None,
    }
}

/// What a byte from the serial line asks for, see [`serial_meaning`].
pub fn serial_command(byte: u8) -> (command: Option<Command>)
    ensures
        command == serial_meaning(byte),
{
    let received: char = byte as char;
    match received {
        'i' => Some(Command::Jump),
        'j' => Some(Command::Jump),
        _ => None,
    }
}

/// Whether a cell of the screen lies on its edge, see [`on_border`].
pub fn is_border(x: u16, y: u16, width: u16, height: u16) -> (border: bool)
    requires
        x < width,
        y < height,
    ensures
        border == on_border(x, y, width, height),
{
    (y == 0 || y == height - 1) || (x == 0 || x == width - 1)
}

/// The column in which a text of `text_len` cells begins when it is centred
/// on a screen `width` cells wide; an odd cell left over stays on the right.
pub fn centered_column(width: u16, text_len: u16) -> (column: u16)
    requires
        text_len <= width,
    ensures
        column == (width - text_len) / 2,
{
    (width - text_len) / 2
}

/// How long a frame lasts, and the highest level that this has been
/// adjusted to.
#[derive(Debug, Clone, Copy)]
pub struct Pace {
    pub interval_ms: u64,
    pub level: u16,
}

impl Pace {
    /// The pace at which a game begins or begins anew at `level`.
    pub open spec fn initial(level: u16) -> Pace {
        Pace { interval_ms: FIRST_FRAME_MS, level }
    }

    /// The pace once the game is seen at `level`: at a higher level than
    /// any seen before, a frame lasts nine tenths of what it did, rounded
    /// down to whole milliseconds; otherwise nothing changes.
    pub open spec fn observed(self, level: u16) -> Pace {
        if level > self.level {
            Pace { interval_ms: (self.interval_ms * 9 / 10) as u64, level }
        } else {
            self
        }
    }

    /// The pace at which a game begins, see [`Pace::initial`].
    pub fn new(level: u16) -> (pace: Self)
        ensures
            pace == Pace::initial(level),
    {
        Pace { interval_ms: FIRST_FRAME_MS, level }
    }

    /// Adjusts the pace to the level of the game, see [`Pace::observed`].
    pub fn observe(&mut self, level: u16)
        ensures
            *final(self) == old(self).observed(level),
            final(self).interval_ms <= old(self).interval_ms,
    {
        if level > self.level {
            self.level = level;
            self.interval_ms = (self.interval_ms as u128 * 9 / 10) as u64;
        }
    }
}

} // verus!
