//! The colours that the game paints with.

use vstd::prelude::*;

verus! {

/// A colour of the game.
#[derive(Debug, Clone, Copy, PartialEq, Eq, Structural)]
pub enum Color {
    Blue,
    Green,
    Yellow,
    Magenta,
    Cyan,
}

/// Number of colours that an obstacle can have.
pub const PALETTE_SIZE: u16 = 5;

/// The colours that an obstacle can have, in the order in which they are numbered.
pub open spec fn palette() -> Seq<Color> {
    seq![Color::Blue, Color::Green, Color::Yellow, Color::Magenta, Color::Cyan]
}

/// The colour with the given number in the palette.
pub fn palette_color(index: u16) -> (color: Color)
    requires
        index < PALETTE_SIZE,
    ensures
        color == palette()[index as int],
{
    match index {
        0 => Color::Blue,
        1 => Color::Green,
        2 => Color::Yellow,
        3 => Color::Magenta,
        _ => Color::Cyan,
    }
}

} // verus!
