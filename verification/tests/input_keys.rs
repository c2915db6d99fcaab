use snake_game::config::{FLASH_TIME, FOOD_X, FOOD_Y, GAME_OVER, HEIGHT, SNAKE_X, SNAKE_Y, WIDTH};
use snake_game::grid::Direction;
use snake_game::input::{interpret, Command, InputEvent, Key};

#[test]
fn arrows_turn_the_snake() {
    assert_eq!(interpret(InputEvent::Press(Key::Left)), Command::Turn(Direction::Left));
    assert_eq!(interpret(InputEvent::Press(Key::Right)), Command::Turn(Direction::Right));
    assert_eq!(interpret(InputEvent::Press(Key::Up)), Command::Turn(Direction::Up));
    assert_eq!(interpret(InputEvent::Press(Key::Down)), Command::Turn(Direction::Down));
}

#[test]
fn q_and_escape_quit() {
    assert_eq!(interpret(InputEvent::Press(Key::Char('q'))), Command::Quit);
    assert_eq!(interpret(InputEvent::Press(Key::Esc)), Command::Quit);
}

#[test]
fn other_keys_are_ignored() {
    assert_eq!(interpret(InputEvent::Press(Key::Char('Q'))), Command::Ignore);
    assert_eq!(interpret(InputEvent::Press(Key::Char('x'))), Command::Ignore);
    assert_eq!(interpret(InputEvent::Press(Key::Char(' '))), Command::Ignore);
    assert_eq!(interpret(InputEvent::Press(Key::Other)), Command::Ignore);
}

#[test]
fn other_events_are_ignored() {
    assert_eq!(interpret(InputEvent::Other), Command::Ignore);
}

#[test]
fn default_game() {
    assert_eq!(WIDTH, 40);
    assert_eq!(HEIGHT, 20);
    assert_eq!(FLASH_TIME, 500);
    assert_eq!((SNAKE_X, SNAKE_Y), (10, 10));
    assert_eq!((FOOD_X, FOOD_Y), (15, 15));
    assert_eq!(GAME_OVER, "You are DEAD!");
}
