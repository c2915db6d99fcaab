//! The snake: a head, the cells behind it, a heading and a pending meal.

use vstd::prelude::*;
use crate::grid::{cells, Cell, Direction, Position};
use crate::food::Food;

verus! {

/// The mathematical value of a [`Snake`].
#[verifier::ext_equal]
pub struct SnakeModel {
    pub direction: Direction,
    pub head: Cell,
    /// The cells behind the head, the one nearest to the head first.
    pub body: Seq<Cell>,
    /// Set by a meal, spent by the next move, which then keeps the tail.
    pub has_eaten: bool,
}

impl SnakeModel {
    /// A snake in play has at least one cell behind its head: it starts with
    /// one and no move takes the last one away.
    pub open spec fn wf(self) -> bool {
        self.body.len() >= 1
    }

    /// The body without its tail cell; an empty body stays empty.
    pub open spec fn trimmed_body(self) -> Seq<Cell> {
        if self.body.len() == 0 {
            self.body
        } else {
            self.body.drop_last()
        }
    }

    /// The snake one move later. The tail is dropped unless a meal is pending,
    /// the cell the head leaves becomes the first body cell, the head goes one
    /// step along the heading and the pending meal is spent.
    pub open spec fn moved(self) -> SnakeModel {
        SnakeModel {
            direction: self.direction,
            head: self.head.shifted(self.direction),
            body: seq![self.head] + (if self.has_eaten {
                self.body
            } else {
                self.trimmed_body()
            }),
            has_eaten: false,
        }
    }

    /// Whether the next move keeps the head within machine integers.
    pub open spec fn can_move(self) -> bool {
        self.head.shifted(self.direction).representable()
    }

    /// Whether the head lies on the cell `food`.
    pub open spec fn eats(self, food: Cell) -> bool {
        self.head == food
    }

    /// The snake after it has looked for food at `food`: a meal is pending if
    /// the head lies there, and one that was pending before stays so.
    pub open spec fn fed(self, food: Cell) -> SnakeModel {
        SnakeModel {
            direction: self.direction,
            head: self.head,
            body: self.body,
            has_eaten: self.has_eaten || self.eats(food),
        }
    }

    /// Whether the head lies off a field of `width` columns and `height` rows.
    pub open spec fn hits_wall(self, width: int, height: int) -> bool {
        !self.head.inside(width, height)
    }
}

/// The snake as the game holds it.
#[derive(Clone, Debug, PartialEq, Eq)]
pub struct Snake {
    pub direction: Direction,
    pub head: Position,
    pub body: Vec<Position>,
    pub has_eaten: bool,
}

impl View for Snake {
    type V = SnakeModel;

    open spec fn view(&self) -> SnakeModel {
        SnakeModel {
            direction: self.direction,
            head: self.head@,
            body: cells(self.body@),
            has_eaten: self.has_eaten,
        }
    }
}

impl Snake {
    /// A snake heading right with its head at `(x, y)` and one body cell to
    /// the left of it.
    pub fn new(x: isize, y: isize) -> (snake: Snake)
        requires
            x > isize::MIN,
        ensures
            snake@ == (SnakeModel {
                direction: Direction::Right,
                head: Cell { x: x as int, y: y as int },
                body: seq![Cell { x: x - 1, y: y as int }],
                has_eaten: false,
            }),
            snake@.wf(),
    {
        let snake = Snake {
            direction: Direction::Right,
            head: Position { x, y },
            body: vec![Position { x: x - 1, y }],
            has_eaten: false,
        };
        snake
    }

    /// Looks for food under the head. Returns whether the head lies on the
    /// food, and if so marks a meal as pending; nothing else changes.
    pub fn check_food_collision(&mut self, food: &Food) -> (eaten: bool)
        ensures
            eaten == old(self)@.eats(food@),
            final(self)@ == old(self)@.fed(food@),
    {
        if self.head.x == food.position.x && self.head.y == food.position.y {
            self.has_eaten = true;
            true
        } else {
            false
        }
    }

    /// Tells whether the head has left a field of `width` columns and `height`
    /// rows. The cells `0` and `width - 1` are on the field, `-1` and `width`
    /// are not, and likewise for the rows.
    pub fn is_colliding_with_wall(&self, width: isize, height: isize) -> (hit: bool)
        ensures
            hit == self@.hits_wall(width as int, height as int),
            hit == (self.head.x < 0 || width <= self.head.x || self.head.y < 0 || height
                <= self.head.y),
    {
        self.head.x < 0 || self.head.x >= width || self.head.y < 0 || self.head.y >= height
    }

    /// Turns the snake towards `direction` for its next move. Any heading is
    /// taken, the reverse of the current one too.
    pub fn turn(&mut self, direction: Direction)
        ensures
            final(self)@ == (SnakeModel { direction, ..old(self)@ }),
    {
        self.direction = direction;
    }

    /// Moves the snake one cell along its heading.
    pub fn move_forward(&mut self)
        requires
            old(self)@.can_move(),
        ensures
            final(self)@ == old(self)@.moved(),
            final(self)@.wf(),
            final(self)@.body[0] == old(self)@.head,
    {
        if !self.has_eaten {
            self.body.pop();
        } else {
            self.has_eaten = false;
        }
        self.body.insert(0, Position { x: self.head.x, y: self.head.y });

        match self.direction {
            Direction::Up => self.head.y -= 1,
            Direction::Down => self.head.y += 1,
            Direction::Left => self.head.x -= 1,
            Direction::Right => self.head.x += 1,
        }
    }
}

} // verus!
