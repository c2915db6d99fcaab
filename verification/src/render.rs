//! What a frame of the field shows, glyph by glyph.

use vstd::prelude::*;
use crate::food::Food;
use crate::grid::{point_in_set, Cell, Position};
use crate::snake::{Snake, SnakeModel};

verus! {

/// What one place of a frame shows.
#[derive(Clone, Copy, Debug, PartialEq, Eq)]
pub enum Glyph {
    Wall,
    Head,
    Body,
    Food,
    Blank,
}

impl Glyph {
    /// The character a glyph is drawn with: a filled block for the wall, a
    /// face for the head, a hollow circle for a body cell, a filled dot for
    /// the food and a space for an empty cell.
    pub open spec fn symbol_of(self) -> char {
        match self {
            Glyph::Wall => '\u{25A0}',
            Glyph::Head => '\u{263A}',
            Glyph::Body => '\u{25CB}',
            Glyph::Food => '\u{25CF}',
            Glyph::Blank => ' ',
        }
    }

    /// The character this glyph is drawn with.
    pub fn symbol(self) -> (c: char)
        ensures
            c == self.symbol_of(),
    {
        match self {
            Glyph::Wall => '\u{25A0}',
            Glyph::Head => '\u{263A}',
            Glyph::Body => '\u{25CB}',
            Glyph::Food => '\u{25CF}',
            Glyph::Blank => ' ',
        }
    }
}

/// What the cell `at` shows. The head hides the body and the body hides the
/// food.
pub open spec fn glyph_at(snake: SnakeModel, food: Cell, at: Cell) -> Glyph {
    if at == snake.head {
        Glyph::Head
    } else if snake.body.contains(at) {
        Glyph::Body
    } else if at == food {
        Glyph::Food
    } else {
        Glyph::Blank
    }
}

/// The top and the bottom row of a frame: `width + 2` wall glyphs, none if
/// that number is not positive.
pub open spec fn border_row(width: int) -> Seq<Glyph> {
    Seq::new(
        if width + 2 > 0 {
            (width + 2) as nat
        } else {
            0nat
        },
        |i: int| Glyph::Wall,
    )
}

/// The cells of row `y` from column `0` up to but not including `upto`.
pub open spec fn row_cells(snake: SnakeModel, food: Cell, upto: int, y: int) -> Seq<Glyph> {
    Seq::new(
        if upto > 0 {
            upto as nat
        } else {
            0nat
        },
        |x: int| glyph_at(snake, food, Cell { x, y }),
    )
}

/// Row `y` of the field as a frame shows it: the cells of the row between two
/// wall glyphs. A field without columns has empty rows.
pub open spec fn field_row(snake: SnakeModel, food: Cell, width: int, y: int) -> Seq<Glyph> {
    if width <= 0 {
        Seq::empty()
    } else {
        seq![Glyph::Wall] + row_cells(snake, food, width, y) + seq![Glyph::Wall]
    }
}

/// The rows of the field from row `0` up to but not including `upto`.
pub open spec fn field_rows(snake: SnakeModel, food: Cell, width: int, upto: int) -> Seq<
    Seq<Glyph>,
> {
    Seq::new(
        if upto > 0 {
            upto as nat
        } else {
            0nat
        },
        |y: int| field_row(snake, food, width, y),
    )
}

/// A whole frame: a border row, the rows of the field from the top down, and
/// a border row.
pub open spec fn frame(snake: SnakeModel, food: Cell, width: int, height: int) -> Seq<Seq<Glyph>> {
    seq![border_row(width)] + field_rows(snake, food, width, height) + seq![border_row(width)]
}

/// The rows that a vector of glyph vectors stands for.
pub open spec fn rows_of(rows: Seq<Vec<Glyph>>) -> Seq<Seq<Glyph>> {
    Seq::new(rows.len(), |i: int| rows[i]@)
}

/// The characters of one row as it is written out: the symbol of each glyph,
/// then a line feed and a carriage return.
pub open spec fn line_text(row: Seq<Glyph>) -> Seq<char> {
    Seq::new(row.len(), |i: int| row[i].symbol_of()) + seq!['\n', '\r']
}

/// The characters of a frame as it is written out: its rows as lines, from
/// the top down.
pub open spec fn frame_text(rows: Seq<Seq<Glyph>>) -> Seq<char>
    decreases rows.len(),
{
    if rows.len() == 0 {
        Seq::empty()
    } else {
        frame_text(rows.drop_last()) + line_text(rows.last())
    }
}

/// Chooses the glyph for the cell `(x, y)`.
pub fn classify(snake: &Snake, food: &Food, x: isize, y: isize) -> (glyph: Glyph)
    ensures
        glyph == glyph_at(snake@, food@, Cell { x: x as int, y: y as int }),
{
    if snake.head.x == x && snake.head.y == y {
        Glyph::Head
    } else if point_in_set(&Position { x, y }, &snake.body) {
        Glyph::Body
    } else if food.position.x == x && food.position.y == y {
        Glyph::Food
    } else {
        Glyph::Blank
    }
}

/// Builds a border row for a field of `width` columns.
pub fn render_border(width: isize) -> (row: Vec<Glyph>)
    requires
        width + 2 <= isize::MAX,
    ensures
        row@ == border_row(width as int),
{
    let mut row: Vec<Glyph> = Vec::new();
    let mut i: isize = 0;
    while i < width + 2
        invariant
            width + 2 <= isize::MAX,
            0 <= i,
            width + 2 > 0 ==> i <= width + 2,
            width + 2 <= 0 ==> i == 0,
            row@ =~= Seq::new(i as nat, |k: int| Glyph::Wall),
        decreases width + 2 - i,
    {
        row.push(Glyph::Wall);
        i += 1;
    }
    row
}

/// Builds row `y` of the field.
pub fn render_row(snake: &Snake, food: &Food, width: isize, y: isize) -> (row: Vec<Glyph>)
    ensures
        row@ == field_row(snake@, food@, width as int, y as int),
{
    let mut row: Vec<Glyph> = Vec::new();
    let mut x: isize = 0;
    while x < width
        invariant
            0 <= x,
            width > 0 ==> x <= width,
            width <= 0 ==> x == 0,
            row@ =~= if x == 0 {
                Seq::<Glyph>::empty()
            } else if x < width {
                seq![Glyph::Wall] + row_cells(snake@, food@, x as int, y as int)
            } else {
                field_row(snake@, food@, width as int, y as int)
            },
        decreases width - x,
    {
        if x == 0 {
            row.push(Glyph::Wall);
        }
        row.push(classify(snake, food, x, y));
        if x == width - 1 {
            row.push(Glyph::Wall);
        }
        x += 1;
    }
    row
}

/// Builds the frame of a field of `width` columns and `height` rows: its
/// rows from the top down, each from left to right.
pub fn render_frame(snake: &Snake, food: &Food, width: isize, height: isize) -> (rows: Vec<
    Vec<Glyph>,
>)
    requires
        width + 2 <= isize::MAX,
    ensures
        rows_of(rows@) == frame(snake@, food@, width as int, height as int),
{
    let mut rows: Vec<Vec<Glyph>> = Vec::new();
    rows.push(render_border(width));
    let mut y: isize = 0;
    while y < height
        invariant
            0 <= y,
            height > 0 ==> y <= height,
            height <= 0 ==> y == 0,
            rows_of(rows@) =~= seq![border_row(width as int)] + field_rows(
                snake@,
                food@,
                width as int,
                y as int,
            ),
        decreases height - y,
    {
        let ghost above = rows_of(rows@);
        rows.push(render_row(snake, food, width, y));
        assert(rows_of(rows@) =~= above.push(field_row(snake@, food@, width as int, y as int)));
        y += 1;
    }
    rows.push(render_border(width));
    rows
}

/// Writes a frame out as characters: every row from left to right, each
/// closed by a line feed and a carriage return.
pub fn render_text(rows: &Vec<Vec<Glyph>>) -> (text: Vec<char>)
    ensures
        text@ == frame_text(rows_of(rows@)),
{
    let mut text: Vec<char> = Vec::new();
    let mut r: usize = 0;
    while r < rows.len()
        invariant
            r <= rows.len(),
            text@ == frame_text(rows_of(rows@).take(r as int)),
        decreases rows.len() - r,
    {
        let row: &Vec<Glyph> = &rows[r];
        let ghost done = text@;
        let mut c: usize = 0;
        while c < row.len()
            invariant
                c <= row.len(),
                text@ =~= done + Seq::new(c as nat, |i: int| row@[i].symbol_of()),
            decreases row.len() - c,
        {
            text.push(row[c].symbol());
            c += 1;
        }
        text.push('\n');
        text.push('\r');
        proof {
            let upto = rows_of(rows@).take(r + 1);
            assert(upto.drop_last() =~= rows_of(rows@).take(r as int));
        }
        r += 1;
    }
    assert(rows_of(rows@).take(rows.len() as int) =~= rows_of(rows@));
    text
}

/// The shape of a frame: a field with at least one column shows as
/// `height + 2` rows of `width + 2` glyphs. The first and the last row and
/// the first and the last glyph of every row are wall; the glyph at row
/// `y + 1` and column `x + 1` is that of the cell `(x, y)`.
pub proof fn lemma_frame_shape(snake: SnakeModel, food: Cell, width: int, height: int)
    requires
        width >= 1,
        height >= 0,
    ensures
        frame(snake, food, width, height).len() == height + 2,
        forall|r: int|
            0 <= r < height + 2 ==> (#[trigger] frame(snake, food, width, height)[r]).len()
                == width + 2,
        forall|r: int|
            #![trigger frame(snake, food, width, height)[r]]
            0 <= r < height + 2 ==> frame(snake, food, width, height)[r][0] == Glyph::Wall
                && frame(snake, food, width, height)[r][width + 1] == Glyph::Wall,
        forall|c: int|
            0 <= c < width + 2 ==> (#[trigger] frame(snake, food, width, height)[0][c])
                == Glyph::Wall,
        forall|c: int|
            0 <= c < width + 2 ==> (#[trigger] frame(snake, food, width, height)[height + 1][c])
                == Glyph::Wall,
        forall|x: int, y: int|
            0 <= x < width && 0 <= y < height ==> (#[trigger] frame(
                snake,
                food,
                width,
                height,
            )[y + 1][x + 1]) == glyph_at(snake, food, Cell { x, y }),
{
}

} // verus!
