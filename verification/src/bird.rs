//! The bird: it keeps its column, falls under gravity, and jumps.
//!
//! The physics step follows `y' = y + v*t + g*t*t/2` with whole-number
//! constants, so every position it aims for is a whole number of half
//! rows. The step computes in half rows and is exact.

use vstd::prelude::*;

use crate::color::Color;
use crate::{GRAVITY, JUMP_VELOCITY, MAX_VELOCITY, UPDATE_INTERVAL};

verus! {

/// Column in which every bird flies.
pub const BIRD_X: u16 = 25;

/// Highest row that the bird can reach.
pub const CEILING_ROW: u16 = 1;

/// Rows between the lowest row that the bird can reach and the screen height.
pub const FLOOR_MARGIN: u16 = 4;

/// The player's bird. `(x, y)` is the top left cell of its footprint, which
/// is 5 cells wide and 3 cells high; `velocity` is in rows per tick,
/// positive downwards.
#[derive(Debug, Clone, Copy)]
pub struct Bird {
    pub x: u16,
    pub y: u16,
    pub velocity: i32,
    pub screen_size: (u16, u16),
}

/// The bird's picture: for each painted cell its offset from `(x, y)` to the
/// right and downwards, and the character.
pub open spec fn bird_shape() -> Seq<(u16, u16, char)> {
    seq![
        (0u16, 0u16, ' '),
        (1u16, 0u16, ' '),
        (2u16, 0u16, ' '),
        (3u16, 0u16, '|'),
        (4u16, 0u16, '>'),
        (0u16, 1u16, '|'),
        (1u16, 1u16, ':'),
        (2u16, 1u16, ':'),
        (3u16, 1u16, '|'),
        (4u16, 1u16, ' '),
    ]
}

impl Bird {
    /// The bird as a session starts with it: at half the screen height, at rest.
    pub open spec fn initial(screen_size: (u16, u16)) -> Bird {
        Bird { x: BIRD_X, y: screen_size.1 / 2, velocity: 0, screen_size }
    }

    /// First column of the footprint.
    pub open spec fn leftmost(self) -> int {
        self.x as int
    }

    /// Last column of the footprint.
    pub open spec fn rightmost(self) -> int {
        self.x + 4
    }

    /// Last row of the footprint.
    pub open spec fn bottom(self) -> int {
        self.y + 2
    }

    /// Lowest row that the bird can reach on its screen.
    pub open spec fn floor_row(self) -> int {
        self.screen_size.1 - FLOOR_MARGIN
    }

    /// The bird is between the ceiling row and the floor row, both included.
    pub open spec fn in_bounds(self) -> bool {
        CEILING_ROW <= self.y <= self.floor_row()
    }

    /// The cells of the bird's picture have representable columns and rows.
    pub open spec fn drawable(self) -> bool {
        &&& self.x + 4 <= u16::MAX
        &&& self.y + 1 <= u16::MAX
    }

    /// The velocity that a step integrates: the bird's own, but no more than
    /// `MAX_VELOCITY`.
    pub open spec fn capped_velocity(self) -> int {
        if self.velocity < MAX_VELOCITY {
            self.velocity as int
        } else {
            MAX_VELOCITY as int
        }
    }

    /// Twice the row that a step aims for, `2 * (y + v*t + g*t*t/2)` with the
    /// capped velocity for `v`.
    pub open spec fn twice_target(self) -> int {
        2 * self.y + 2 * (self.capped_velocity() * UPDATE_INTERVAL) + GRAVITY * (UPDATE_INTERVAL
            * UPDATE_INTERVAL)
    }

    /// The bird one tick later. A step that aims below the floor row lands
    /// the bird there, one that aims above the ceiling row stops it there,
    /// both at rest. Any other step moves the bird to the row it aims for,
    /// rounded down, and lets gravity add to the capped velocity.
    pub open spec fn stepped(self) -> Bird {
        if self.twice_target() > 2 * self.floor_row() {
            Bird { y: self.floor_row() as u16, velocity: 0, ..self }
        } else if self.twice_target() < 2 * CEILING_ROW {
            Bird { y: CEILING_ROW, velocity: 0, ..self }
        } else {
            Bird {
                y: (self.twice_target() / 2) as u16,
                velocity: (self.capped_velocity() + GRAVITY) as i32,
                ..self
            }
        }
    }

    /// The bird right after a jump.
    pub open spec fn jumped(self) -> Bird {
        Bird { velocity: JUMP_VELOCITY, ..self }
    }

    /// The cells to paint for the bird, in the order of [`bird_shape`], all yellow.
    pub open spec fn sprite(self) -> Seq<(u16, u16, char, Color)> {
        Seq::new(
            bird_shape().len(),
            |i: int|
                (
                    (self.x + bird_shape()[i].0) as u16,
                    (self.y + bird_shape()[i].1) as u16,
                    bird_shape()[i].2,
                    Color::Yellow,
                ),
        )
    }

    /// A step in whole rows. With the capped velocity `v`, the bird aims for
    /// row `y + v` and a half. It lands on the floor row if `y + v` is that
    /// row or below it, stops at the ceiling row if `y + v` is 0 or above
    /// the screen, and otherwise moves to row `y + v` and gains one row per
    /// tick of velocity.
    pub proof fn lemma_step_in_rows(self)
        ensures
            self.stepped() == if self.y + self.capped_velocity() >= self.floor_row() {
                Bird { y: self.floor_row() as u16, velocity: 0, ..self }
            } else if self.y + self.capped_velocity() <= 0 {
                Bird { y: CEILING_ROW, velocity: 0, ..self }
            } else {
                Bird {
                    y: (self.y + self.capped_velocity()) as u16,
                    velocity: (self.capped_velocity() + 1) as i32,
                    ..self
                }
            },
    {
    }

    /// On a screen with room between ceiling and floor, a step leaves the
    /// bird between them, wherever it was and however fast.
    pub proof fn lemma_step_in_bounds(self)
        requires
            CEILING_ROW <= self.floor_row(),
        ensures
            self.stepped().in_bounds(),
            self.stepped().x == self.x,
            self.stepped().screen_size == self.screen_size,
            self.stepped().velocity <= MAX_VELOCITY + GRAVITY,
    {
    }

    /// A jump sets the velocity to `JUMP_VELOCITY` whatever it was, moves
    /// nothing, and a second jump right after it changes nothing more.
    pub proof fn lemma_jump_overwrites(self)
        ensures
            self.jumped().velocity == JUMP_VELOCITY,
            self.jumped().y == self.y,
            self.jumped().x == self.x,
            self.jumped().jumped() == self.jumped(),
    {
    }

    /// The bird as a game starts with it, see [`Bird::initial`].
    pub fn new(screen_size: (u16, u16)) -> (bird: Self)
        ensures
            bird == Bird::initial(screen_size),
    {
        Self { x: BIRD_X, y: screen_size.1 / 2, velocity: 0, screen_size }
    }

    /// Advances the bird by one tick, see [`Bird::stepped`]. Wherever the
    /// bird was, it is between ceiling and floor afterwards.
    pub fn update(&mut self)
        requires
            FLOOR_MARGIN <= old(self).screen_size.1,
        ensures
            *final(self) == old(self).stepped(),
            CEILING_ROW <= old(self).floor_row() ==> final(self).in_bounds(),
    {
        let velocity: i32 = if self.velocity < MAX_VELOCITY {
            self.velocity
        } else {
            MAX_VELOCITY
        };
        let interval: i64 = UPDATE_INTERVAL as i64;
        let twice_delta: i64 = 2 * (velocity as i64 * interval) + GRAVITY as i64 * (interval
            * interval);
        let twice_new_y: i64 = 2 * (self.y as i64) + twice_delta;
        let floor_row: u16 = self.screen_size.1 - FLOOR_MARGIN;

        if twice_new_y > 2 * (floor_row as i64) {
            self.velocity = 0;
            self.y = floor_row;
        } else if twice_new_y < 2 * (CEILING_ROW as i64) {
            self.velocity = 0;
            self.y = CEILING_ROW;
        } else {
            self.velocity = velocity + GRAVITY;
            self.y = (twice_new_y / 2) as u16;
        }
    }

    /// Gives the bird the jump velocity, whatever its velocity was.
    pub fn jump(&mut self)
        ensures
            *final(self) == old(self).jumped(),
            final(self).velocity == JUMP_VELOCITY,
    {
        self.velocity = JUMP_VELOCITY;
    }

    /// Whether [`Bird::draw`] can paint the bird, see [`Bird::drawable`].
    pub fn is_drawable(&self) -> (able: bool)
        ensures
            able == self.drawable(),
    {
        self.x <= u16::MAX - 4 && self.y <= u16::MAX - 1
    }

    /// The cells to paint, see [`Bird::sprite`].
    pub fn draw(&self) -> (points: Vec<(u16, u16, char, Color)>)
        requires
            self.drawable(),
        ensures
            points@ == self.sprite(),
    {
        let mut points: Vec<(u16, u16, char, Color)> = Vec::new();
        let color = Color::Yellow;
        let shape: [(u16, u16, char); 10] = [
            (0, 0, ' '),
            (1, 0, ' '),
            (2, 0, ' '),
            (3, 0, '|'),
            (4, 0, '>'),
            (0, 1, '|'),
            (1, 1, ':'),
            (2, 1, ':'),
            (3, 1, '|'),
            (4, 1, ' '),
        ];
        assert(shape@ =~= bird_shape());

        let mut i: usize = 0;
        while i < 10
            invariant
                i <= 10,
                shape@ == bird_shape(),
                self.x + 4 <= u16::MAX,
                self.y + 1 <= u16::MAX,
                color == Color::Yellow,
                points@ == self.sprite().take(i as int),
            decreases 10 - i,
        {
            let (dx, dy, ch) = shape[i];
            assert(dx <= 4 && dy <= 1);
            points.push((self.x + dx, self.y + dy, ch, color));
            assert(self.sprite().take(i + 1) =~= self.sprite().take(i as int).push(
                self.sprite()[i as int],
            ));
            i += 1;
        }
        assert(self.sprite().take(10) =~= self.sprite());
        points
    }

    /// Last column of the footprint.
    pub fn get_rightmost_x(&self) -> (x: u16)
        requires
            self.x + 4 <= u16::MAX,
        ensures
            x == self.rightmost(),
    {
        self.x + 4
    }

    /// Last row of the footprint.
    pub fn get_bottom_y(&self) -> (y: u16)
        requires
            self.y + 2 <= u16::MAX,
        ensures
            y == self.bottom(),
    {
        self.y + 2
    }

    /// First column of the footprint.
    pub fn get_leftmost_x(&self) -> (x: u16)
        ensures
            x == self.leftmost(),
    {
        self.x
    }
}

} // verus!
