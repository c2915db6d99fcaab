//! The single piece of food on the field.

use rand::Rng;
use vstd::prelude::*;
use crate::grid::{Cell, Position};

verus! {

/// The food. Its value as a model is the cell it lies on.
#[derive(Clone, Copy, Debug, PartialEq, Eq)]
pub struct Food {
    pub position: Position,
}

impl View for Food {
    type V = Cell;

    open spec fn view(&self) -> Cell {
        self.position@
    }
}

/// Draws one integer with `rand::Rng::gen_range` on the half-open range from
/// `low` to `high`, from the generator that `rand::thread_rng` hands out.
///
/// Trusted, not proved: the draw is at least `low` and below `high`. Which
/// value comes is left open, and two draws need not agree. `gen_range` panics
/// on an empty range, which `low < high` rules out; `thread_rng` panics only
/// where the system gives it nothing to seed the generator from.
#[verifier::external_body]
fn draw_between(low: isize, high: isize) -> (drawn: isize)
    requires
        low < high,
    ensures
        low <= drawn < high,
{
    rand::thread_rng().gen_range(low..high)
}

impl Food {
    /// Food lying at `position`.
    pub fn new(position: Position) -> (food: Food)
        ensures
            food.position == position,
            food@ == position@,
    {
        Food { position }
    }

    /// Puts the food on the cell `(x, y)`.
    pub fn place(&mut self, x: isize, y: isize)
        ensures
            final(self)@ == (Cell { x: x as int, y: y as int }),
    {
        self.position.x = x;
        self.position.y = y;
    }

    /// Moves the food to a cell drawn at random: a column from `0` up to but
    /// not including `x` and, independently, a row from `0` up to but not
    /// including `y`. The cell may be one that the snake lies on.
    pub fn gen(&mut self, x: isize, y: isize)
        requires
            x > 0,
            y > 0,
        ensures
            0 <= final(self)@.x < x,
            0 <= final(self)@.y < y,
    {
        let column: isize = draw_between(0, x);
        let row: isize = draw_between(0, y);
        self.place(column, row);
    }
}

} // verus!
