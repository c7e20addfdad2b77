//! Obstacles: coloured rectangles that stand on the floor of the screen and
//! scroll towards the left edge.

use rand::Rng;
use vstd::arithmetic::div_mod::lemma_fundamental_div_mod_converse;
use vstd::prelude::*;

use crate::color::{palette, palette_color, Color, PALETTE_SIZE};

verus! {

/// A rectangular obstacle. It spans the columns `x .. x + width` and the
/// rows from `screen height - height` down to the last row of the screen.
#[derive(Debug, Clone, Copy)]
pub struct Rect {
    pub x: u16,
    pub width: u16,
    pub height: u16,
    pub color: Color,
    pub screen_size: (u16, u16),
}

/// A number drawn by `rand::thread_rng().gen_range(low..high)`. Trusted, not
/// proved: the generator panics on an empty range, so the range must hold a
/// number; what it returns lies in the range, the lower bound included and
/// the upper one not. Nothing is claimed of which number comes. The
/// generator of a thread takes its seed from the operating system, when it
/// is first used and again whenever it reseeds, and panics if the system
/// gives none; no input decides that, so no `requires` leaves it out.
#[verifier::external_body]
fn random_in_range(low: u16, high: u16) -> (drawn: u16)
    requires
        low < high,
    ensures
        low <= drawn < high,
{
    rand::thread_rng().gen_range(low..high)
}

impl Rect {
    /// First column that the rectangle covers.
    pub open spec fn leftmost(self) -> int {
        self.x as int
    }

    /// Last column that the rectangle covers.
    pub open spec fn rightmost(self) -> int {
        self.x + self.width - 1
    }

    /// First row that the rectangle covers; it reaches down to the floor.
    pub open spec fn top(self) -> int {
        self.screen_size.1 - self.height
    }

    /// The rectangle covers at least one column, is no taller than the
    /// screen, and its edges are representable wherever it scrolls to.
    pub open spec fn wf(self) -> bool {
        &&& 1 <= self.width
        &&& self.x + self.width <= u16::MAX
        &&& self.height <= self.screen_size.1
    }

    /// The cells of the rectangle have representable columns and rows.
    pub open spec fn drawable(self) -> bool {
        &&& self.x + self.width <= u16::MAX
        &&& self.height <= self.screen_size.1
    }

    /// What holds of an obstacle that has just been created for a screen:
    /// it is at least 2 wide and narrower than `max_width`, at least 3 high
    /// and more than 10 rows lower than the screen, and ends at the right edge.
    pub open spec fn fresh(self, max_width: u16, screen_size: (u16, u16)) -> bool {
        &&& 2 <= self.width < max_width
        &&& 3 <= self.height < screen_size.1 - 10
        &&& self.x == screen_size.0 - self.width
        &&& self.screen_size == screen_size
    }

    /// The rectangle one tick later: one column further left, or still at
    /// column 0.
    pub open spec fn scrolled(self) -> Rect {
        Rect { x: if self.x > 0 { (self.x - 1) as u16 } else { 0 }, ..self }
    }

    /// The rectangle `ticks` ticks later.
    pub open spec fn scrolled_by(self, ticks: nat) -> Rect
        decreases ticks,
    {
        if ticks == 0 {
            self
        } else {
            self.scrolled().scrolled_by((ticks - 1) as nat)
        }
    }

    /// Scrolling for `ticks` ticks moves a rectangle `ticks` columns to the
    /// left, but never past column 0, and changes nothing else. So an
    /// obstacle that entered at column `x` stands at `x - width` after as
    /// many ticks as it is wide, or at 0 if `x` is less than its width.
    pub proof fn lemma_scrolled_by(self, ticks: nat)
        ensures
            self.scrolled_by(ticks) == (Rect {
                x: if self.x >= ticks {
                    (self.x - ticks) as u16
                } else {
                    0
                },
                ..self
            }),
            self.wf() ==> self.scrolled_by(ticks).wf(),
        decreases ticks,
    {
        if ticks > 0 {
            self.scrolled().lemma_scrolled_by((ticks - 1) as nat);
        }
    }

    /// The cells that the rectangle covers, row by row from the top, each
    /// row from the left, with the character and colour to paint there.
    pub open spec fn cells(self) -> Seq<(u16, u16, char, Color)> {
        Seq::new(
            (self.width * self.height) as nat,
            |i: int|
                (
                    (self.x + i % (self.width as int)) as u16,
                    (self.top() + i / (self.width as int)) as u16,
                    '*',
                    self.color,
                ),
        )
    }

    /// A rectangle with exactly these values.
    pub fn new(x: u16, width: u16, height: u16, color: Color, screen_size: (u16, u16)) -> (rect: Self)
        ensures
            rect == (Rect { x, width, height, color, screen_size }),
    {
        Self { x, width, height, color, screen_size }
    }

    /// An obstacle of the given size whose right edge is the right edge of
    /// the screen.
    pub fn at_right_edge(width: u16, height: u16, color: Color, screen_size: (u16, u16)) -> (rect:
        Self)
        requires
            width <= screen_size.0,
        ensures
            rect == (Rect { x: (screen_size.0 - width) as u16, width, height, color, screen_size }),
    {
        Self::new(screen_size.0 - width, width, height, color, screen_size)
    }

    /// An obstacle at the right edge of the screen whose width, height and
    /// colour are drawn at random: the width from `2 .. max_width`, the
    /// height from `3 .. screen height - 10`, the colour from the palette.
    pub fn random(max_width: u16, screen_size: (u16, u16)) -> (rect: Self)
        requires
            2 < max_width,
            13 < screen_size.1,
            max_width - 1 <= screen_size.0,
        ensures
            rect.fresh(max_width, screen_size),
            rect.wf(),
            rect.rightmost() <= screen_size.0,
            palette().contains(rect.color),
    {
        let rect_width: u16 = random_in_range(2, max_width);
        let rect_height: u16 = random_in_range(3, screen_size.1 - 10);
        let pick: u16 = random_in_range(0, PALETTE_SIZE);
        Self::at_right_edge(rect_width, rect_height, palette_color(pick), screen_size)
    }

    /// Whether [`Rect::draw`] can paint the rectangle, see [`Rect::drawable`].
    pub fn is_drawable(&self) -> (able: bool)
        ensures
            able == self.drawable(),
    {
        self.width <= u16::MAX - self.x && self.height <= self.screen_size.1
    }

    /// The cells to paint, see [`Rect::cells`].
    pub fn draw(&self) -> (points: Vec<(u16, u16, char, Color)>)
        requires
            self.drawable(),
        ensures
            points@ == self.cells(),
    {
        let mut points: Vec<(u16, u16, char, Color)> = Vec::new();
        let top: u16 = self.screen_size.1 - self.height;
        let right: u16 = self.x + self.width;
        let mut y: u16 = top;
        while y < self.screen_size.1
            invariant
                top == self.top(),
                right == self.x + self.width,
                top <= y <= self.screen_size.1,
                points@ == self.cells().take((y - top) * self.width),
            decreases self.screen_size.1 - y,
        {
            let mut x: u16 = self.x;
            while x < right
                invariant
                    top == self.top(),
                    right == self.x + self.width,
                    top <= y < self.screen_size.1,
                    self.x <= x <= right,
                    points@ == self.cells().take((y - top) * self.width + (x - self.x)),
                decreases right - x,
            {
                proof {
                    self.lemma_cell((y - top) as int, (x - self.x) as int);
                }
                points.push((x, y, '*', self.color));
                x += 1;
            }
            proof {
                assert((y - top) * self.width + self.width == (y + 1 - top) * self.width)
                    by (nonlinear_arith);
            }
            y += 1;
        }
        proof {
            assert((y - top) * self.width == self.width * self.height) by (nonlinear_arith)
                requires
                    y - top == self.height,
            ;
            assert(self.cells().take(self.cells().len() as int) == self.cells());
        }
        points
    }

    /// The cell in row `row` and column `col` of the rectangle is the one
    /// numbered `row * width + col`, and the cells before it followed by it
    /// are the cells up to the next one.
    proof fn lemma_cell(self, row: int, col: int)
        requires
            0 <= row < self.height,
            0 <= col < self.width,
            self.x + self.width <= u16::MAX,
            self.height <= self.screen_size.1,
        ensures
            row * self.width + col < self.cells().len(),
            self.cells().take(row * self.width + col + 1) == self.cells().take(
                row * self.width + col,
            ).push(((self.x + col) as u16, (self.top() + row) as u16, '*', self.color)),
    {
        let k = row * self.width + col;
        assert(0 <= k < self.width * self.height) by (nonlinear_arith)
            requires
                k == row * self.width + col,
                0 <= row < self.height,
                0 <= col < self.width,
        ;
        lemma_fundamental_div_mod_converse(k, self.width as int, row, col);
        assert(self.cells()[k] == ((self.x + col) as u16, (self.top() + row) as u16, '*', self.color));
        assert(self.cells().take(k + 1) =~= self.cells().take(k).push(self.cells()[k]));
    }

    /// The column of the left edge.
    pub fn get_x(&self) -> (x: u16)
        ensures
            x == self.x,
    {
        self.x
    }

    /// Moves the left edge to column `x`.
    pub fn set_x(&mut self, x: u16)
        ensures
            *final(self) == (Rect { x, ..*old(self) }),
    {
        self.x = x;
    }

    /// Moves the rectangle one column to the left; at column 0 it stays.
    pub fn scroll(&mut self)
        ensures
            *final(self) == old(self).scrolled(),
    {
        self.x = self.x.saturating_sub(1);
    }

    /// First column that the rectangle covers.
    pub fn get_leftmost_x(&self) -> (x: u16)
        ensures
            x == self.leftmost(),
    {
        self.x
    }

    /// Last column that the rectangle covers.
    pub fn get_rightmost_x(&self) -> (x: u16)
        requires
            1 <= self.x + self.width <= u16::MAX,
        ensures
            x == self.rightmost(),
    {
        self.x + self.width - 1
    }

    /// First row that the rectangle covers.
    pub fn get_top_y(&self) -> (y: u16)
        requires
            self.height <= self.screen_size.1,
        ensures
            y == self.top(),
    {
        self.screen_size.1 - self.height
    }
}

} // verus!
