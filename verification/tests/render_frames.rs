use snake_game::food::Food;
use snake_game::grid::{Direction, Position};
use snake_game::render::{
    classify, render_border, render_frame, render_row, render_text, Glyph,
};
use snake_game::snake::Snake;

use Glyph::{Blank, Body, Head, Wall};

fn at(x: isize, y: isize) -> Position {
    Position { x, y }
}

#[test]
fn symbols_of_the_glyphs() {
    assert_eq!(Wall.symbol(), '■');
    assert_eq!(Head.symbol(), '☺');
    assert_eq!(Body.symbol(), '○');
    assert_eq!(Glyph::Food.symbol(), '●');
    assert_eq!(Blank.symbol(), ' ');
}

#[test]
fn classify_by_priority() {
    let snake = Snake {
        direction: Direction::Right,
        head: at(2, 2),
        body: vec![at(1, 2), at(2, 2), at(3, 3)],
        has_eaten: false,
    };
    let food = Food::new(at(2, 2));
    assert_eq!(classify(&snake, &food, 2, 2), Head);
    assert_eq!(classify(&snake, &food, 1, 2), Body);
    assert_eq!(classify(&snake, &food, 0, 0), Blank);
    let food = Food::new(at(3, 3));
    assert_eq!(classify(&snake, &food, 3, 3), Body);
    let food = Food::new(at(0, 1));
    assert_eq!(classify(&snake, &food, 0, 1), Glyph::Food);
    assert_eq!(classify(&snake, &food, 1, 0), Blank);
}

#[test]
fn border_has_two_more_glyphs_than_the_field_has_columns() {
    assert_eq!(render_border(3), vec![Wall; 5]);
    assert_eq!(render_border(40).len(), 42);
    assert_eq!(render_border(0), vec![Wall; 2]);
    assert_eq!(render_border(-1), vec![Wall; 1]);
    assert_eq!(render_border(-2), Vec::new());
    assert_eq!(render_border(-9), Vec::new());
}

#[test]
fn row_stands_between_walls() {
    let snake = Snake::new(1, 0);
    let food = Food::new(at(3, 0));
    assert_eq!(
        render_row(&snake, &food, 4, 0),
        vec![Wall, Body, Head, Blank, Glyph::Food, Wall]
    );
    assert_eq!(
        render_row(&snake, &food, 4, 1),
        vec![Wall, Blank, Blank, Blank, Blank, Wall]
    );
    assert_eq!(render_row(&snake, &food, 1, 0), vec![Wall, Body, Wall]);
}

#[test]
fn row_of_a_field_without_columns_is_empty() {
    let snake = Snake::new(1, 0);
    let food = Food::new(at(3, 0));
    assert_eq!(render_row(&snake, &food, 0, 0), Vec::new());
    assert_eq!(render_row(&snake, &food, -5, 0), Vec::new());
}

#[test]
fn frame_of_a_small_field() {
    let snake = Snake::new(1, 0);
    let food = Food::new(at(2, 1));
    let rows = render_frame(&snake, &food, 3, 2);
    assert_eq!(
        rows,
        vec![
            vec![Wall, Wall, Wall, Wall, Wall],
            vec![Wall, Body, Head, Blank, Wall],
            vec![Wall, Blank, Blank, Glyph::Food, Wall],
            vec![Wall, Wall, Wall, Wall, Wall],
        ]
    );
}

#[test]
fn frame_of_the_default_field() {
    let snake = Snake::new(10, 10);
    let food = Food::new(at(15, 15));
    let rows = render_frame(&snake, &food, 40, 20);
    assert_eq!(rows.len(), 22);
    for row in &rows {
        assert_eq!(row.len(), 42);
        assert_eq!(row[0], Wall);
        assert_eq!(row[41], Wall);
    }
    assert_eq!(rows[0], vec![Wall; 42]);
    assert_eq!(rows[21], vec![Wall; 42]);
    assert_eq!(rows[11][11], Head);
    assert_eq!(rows[11][10], Body);
    assert_eq!(rows[16][16], Glyph::Food);
    let blanks: usize = rows.iter().flatten().filter(|g| **g == Blank).count();
    assert_eq!(blanks, 40 * 20 - 3);
}

#[test]
fn frame_hides_what_is_off_the_field() {
    let snake = Snake::new(3, 0);
    let food = Food::new(at(0, 2));
    let rows = render_frame(&snake, &food, 3, 2);
    assert_eq!(
        rows,
        vec![
            vec![Wall, Wall, Wall, Wall, Wall],
            vec![Wall, Blank, Blank, Body, Wall],
            vec![Wall, Blank, Blank, Blank, Wall],
            vec![Wall, Wall, Wall, Wall, Wall],
        ]
    );
}

#[test]
fn frame_of_a_field_without_rows_is_two_borders() {
    let snake = Snake::new(1, 0);
    let food = Food::new(at(2, 1));
    assert_eq!(
        render_frame(&snake, &food, 2, 0),
        vec![vec![Wall; 4], vec![Wall; 4]]
    );
    assert_eq!(
        render_frame(&snake, &food, 2, -3),
        vec![vec![Wall; 4], vec![Wall; 4]]
    );
}

#[test]
fn text_of_a_frame() {
    let snake = Snake::new(1, 0);
    let food = Food::new(at(2, 1));
    let rows = render_frame(&snake, &food, 3, 2);
    let text: String = render_text(&rows).into_iter().collect();
    assert_eq!(text, "■■■■■\n\r■○☺ ■\n\r■  ●■\n\r■■■■■\n\r");
}

#[test]
fn text_of_no_rows_is_empty() {
    assert_eq!(render_text(&Vec::new()), Vec::new());
}

#[test]
fn text_of_an_empty_row_is_a_line_end() {
    assert_eq!(render_text(&vec![Vec::new()]), vec!['\n', '\r']);
}
