//! Cells of the grid and the four headings.

use vstd::prelude::*;

verus! {

/// A cell of the unbounded integer grid: the mathematical value of a
/// [`Position`].
pub struct Cell {
    pub x: int,
    pub y: int,
}

/// One of the four headings.
#[derive(Clone, Copy, Debug, PartialEq, Eq)]
pub enum Direction {
    Up,
    Down,
    Right,
    Left,
}

/// A grid cell held in machine integers. Nothing bounds it to a field.
#[derive(Clone, Copy, Debug, PartialEq, Eq)]
pub struct Position {
    pub x: isize,
    pub y: isize,
}

impl View for Position {
    type V = Cell;

    open spec fn view(&self) -> Cell {
        Cell { x: self.x as int, y: self.y as int }
    }
}

impl Cell {
    /// The neighbouring cell one step away in direction `d`. Rows are counted
    /// downwards, so `Up` lowers `y`.
    pub open spec fn shifted(self, d: Direction) -> Cell {
        match d {
            Direction::Up => Cell { x: self.x, y: self.y - 1 },
            Direction::Down => Cell { x: self.x, y: self.y + 1 },
            Direction::Left => Cell { x: self.x - 1, y: self.y },
            Direction::Right => Cell { x: self.x + 1, y: self.y },
        }
    }

    /// Whether both coordinates fit a [`Position`].
    pub open spec fn representable(self) -> bool {
        isize::MIN <= self.x <= isize::MAX && isize::MIN <= self.y <= isize::MAX
    }

    /// Whether the cell lies on a field of `width` columns and `height` rows.
    pub open spec fn inside(self, width: int, height: int) -> bool {
        0 <= self.x < width && 0 <= self.y < height
    }
}

/// The cells that a sequence of positions stands for, in the same order.
pub open spec fn cells(positions: Seq<Position>) -> Seq<Cell> {
    Seq::new(positions.len(), |i: int| positions[i]@)
}

/// Tells whether `point` occurs among `set`, by coordinates.
pub fn point_in_set(point: &Position, set: &Vec<Position>) -> (found: bool)
    ensures
        found == cells(set@).contains(point@),
{
    let mut i: usize = 0;
    while i < set.len()
        invariant
            i <= set.len(),
            forall|j: int| 0 <= j < i ==> cells(set@)[j] != point@,
        decreases set.len() - i,
    {
        if set[i].x == point.x && set[i].y == point.y {
            assert(cells(set@)[i as int] == point@);
            return true;
        }
        i += 1;
    }
    false
}

} // verus!
