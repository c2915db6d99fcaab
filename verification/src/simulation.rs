//! One tick of the simulation, and what holds of every run of ticks.

use vstd::prelude::*;
use crate::food::Food;
use crate::grid::{Cell, Direction};
use crate::snake::{Snake, SnakeModel};
use crate::status::{GameState, State};

verus! {

/// Everything a tick reads and writes: the snake, the food and the stage of
/// the game.
#[verifier::ext_equal]
pub struct World {
    pub snake: SnakeModel,
    pub food: Cell,
    pub status: GameState,
}

/// The world made of the three given parts.
pub open spec fn world_of(snake: SnakeModel, food: Cell, status: GameState) -> World {
    World { snake, food, status }
}

impl World {
    /// The number of meals that wait to be turned into a body cell: one or
    /// none.
    pub open spec fn pending(self) -> int {
        if self.snake.has_eaten {
            1
        } else {
            0
        }
    }

    /// Whether this tick's move brings the head onto the food.
    pub open spec fn meal_ahead(self) -> bool {
        self.snake.moved().eats(self.food)
    }

    /// Whether a tick can be carried out on a field of the given size. A game
    /// that is over always can: nothing is done. Otherwise the move has to
    /// stay within machine integers, and if it ends on the food, the field
    /// must leave a cell to draw the next food from.
    pub open spec fn tick_allowed(self, width: int, height: int) -> bool {
        self.status is Started ==> {
            &&& self.snake.can_move()
            &&& self.meal_ahead() ==> width > 1 && height > 1
        }
    }

    /// Whether `after` can be the world one tick after `self`.
    ///
    /// A game that is over does not change. Otherwise the snake moves, then
    /// looks for food under its head. If it finds it, the food goes to some
    /// cell with a column in `[0, width - 1)` and a row in `[0, height - 1)`;
    /// if not, the food stays. Last, the game is over if and only if the head
    /// has left the field.
    pub open spec fn steps_to(self, after: World, width: int, height: int) -> bool {
        match self.status {
            GameState::Ended => after == self,
            GameState::Started => {
                &&& after.snake == self.snake.moved().fed(self.food)
                &&& if self.meal_ahead() {
                    after.food.inside(width - 1, height - 1)
                } else {
                    after.food == self.food
                }
                &&& after.status == if after.snake.hits_wall(width, height) {
                    GameState::Ended
                } else {
                    GameState::Started
                }
            },
        }
    }
}

/// Tells whether `tick` may be called on these values: whether the world they
/// make up allows a tick on a field of the given size.
pub fn can_tick(snake: &Snake, food: &Food, state: &State, width: isize, height: isize) -> (ok:
    bool)
    ensures
        ok == world_of(snake@, food@, state@).tick_allowed(width as int, height as int),
{
    if state.is_ended() {
        return true;
    }
    let x: isize = snake.head.x;
    let y: isize = snake.head.y;
    let fits: bool = match snake.direction {
        Direction::Up => y > isize::MIN,
        Direction::Down => y < isize::MAX,
        Direction::Left => x > isize::MIN,
        Direction::Right => x < isize::MAX,
    };
    if !fits {
        return false;
    }
    let meal: bool = match snake.direction {
        Direction::Up => x == food.position.x && y - 1 == food.position.y,
        Direction::Down => x == food.position.x && y + 1 == food.position.y,
        Direction::Left => x - 1 == food.position.x && y == food.position.y,
        Direction::Right => x + 1 == food.position.x && y == food.position.y,
    };
    !meal || (width > 1 && height > 1)
}

/// Carries out one tick on a field of `width` columns and `height` rows.
///
/// While the game is on, the snake moves one cell; if its head then lies on
/// the food, a meal is pending and the food is drawn anew from the columns
/// `[0, width - 1)` and the rows `[0, height - 1)`; if the head has left the
/// field, the game is over. Once the game is over a tick changes nothing.
/// Returns the stage of the game after the tick.
pub fn tick(snake: &mut Snake, food: &mut Food, state: &mut State, width: isize, height: isize)
    -> (status: GameState)
    requires
        world_of(old(snake)@, old(food)@, old(state)@).tick_allowed(width as int, height as int),
    ensures
        world_of(old(snake)@, old(food)@, old(state)@).steps_to(
            world_of(final(snake)@, final(food)@, final(state)@),
            width as int,
            height as int,
        ),
        status == final(state)@,
        old(state)@ is Ended ==> final(state)@ is Ended,
        old(state)@ is Started ==> final(snake)@.body[0] == old(snake)@.head,
        old(state)@ is Started && old(snake)@.wf() ==> final(snake)@.body.len() == old(
            snake,
        )@.body.len() + world_of(old(snake)@, old(food)@, old(state)@).pending(),
        old(state)@ is Started && old(snake)@.moved().eats(old(food)@) ==> final(food)@.inside(
            width - 1,
            height - 1,
        ),
{
    if state.is_ended() {
        return GameState::Ended;
    }
    snake.move_forward();
    if snake.check_food_collision(food) {
        food.gen(width - 1, height - 1);
    }
    if snake.is_colliding_with_wall(width, height) {
        state.end();
        return GameState::Ended;
    }
    GameState::Started
}

/// Whether `worlds` is a run of ticks on a field of the given size: each
/// world steps to the one after it.
pub open spec fn is_run(worlds: Seq<World>, width: int, height: int) -> bool {
    forall|i: int|
        #![trigger worlds[i]]
        0 <= i < worlds.len() - 1 ==> worlds[i].steps_to(worlds[i + 1], width, height)
}

/// The number of meals found during the first `n` ticks of `worlds`.
pub open spec fn meals(worlds: Seq<World>, n: int) -> int
    decreases n,
{
    if n <= 0 {
        0
    } else {
        meals(worlds, n - 1) + if worlds[n - 1].status is Started && worlds[n - 1].meal_ahead() {
            1int
        } else {
            0int
        }
    }
}

/// A tick of a game that is on lengthens the body by the meal that was
/// pending when the tick began, and by nothing else: the body keeps its
/// length if none was pending and gains one cell if one was.
pub proof fn lemma_tick_spends_pending_meal(before: World, after: World, width: int, height: int)
    requires
        before.snake.wf(),
        before.status is Started,
        before.steps_to(after, width, height),
    ensures
        after.snake.wf(),
        after.snake.body.len() == before.snake.body.len() + before.pending(),
        after.pending() == if before.meal_ahead() {
            1int
        } else {
            0int
        },
{
}

/// On a tick that finds food exactly when a meal was already pending, the
/// body keeps its length if no food was found and gains one cell if food was
/// found. On the other ticks the growth trails the find by one tick, as
/// `lemma_growth_follows_meal` says.
pub proof fn lemma_tick_length_when_meals_agree(
    before: World,
    after: World,
    width: int,
    height: int,
)
    requires
        before.snake.wf(),
        before.status is Started,
        before.steps_to(after, width, height),
        before.snake.has_eaten == before.meal_ahead(),
    ensures
        after.snake.body.len() == before.snake.body.len() + if before.meal_ahead() {
            1int
        } else {
            0int
        },
{
}

/// The body grows on the tick after the one that found food: over two ticks
/// of a game that is on, the second lengthens the body by one cell if the
/// first brought the head onto the food, and leaves its length alone if not.
pub proof fn lemma_growth_follows_meal(
    first: World,
    second: World,
    third: World,
    width: int,
    height: int,
)
    requires
        first.snake.wf(),
        first.status is Started,
        second.status is Started,
        first.steps_to(second, width, height),
        second.steps_to(third, width, height),
    ensures
        second.snake.has_eaten == first.meal_ahead(),
        third.snake.body.len() == second.snake.body.len() + if first.meal_ahead() {
            1int
        } else {
            0int
        },
{
}

/// A game in play can always go on: on a field of more than one column and
/// more than one row that machine integers can number, a world whose game is
/// over, or whose head is on the field, allows a tick, and the world after
/// that tick is again over or has its head on the field.
pub proof fn lemma_play_goes_on(before: World, after: World, width: int, height: int)
    requires
        1 < width <= isize::MAX,
        1 < height <= isize::MAX,
        before.status is Started ==> before.snake.head.inside(width, height),
        before.steps_to(after, width, height),
    ensures
        before.tick_allowed(width, height),
        after.status is Started ==> after.snake.head.inside(width, height),
        after.tick_allowed(width, height),
{
}

/// Once a run has reached a world in which the game is over, every later
/// world of the run equals it: the game is never on again and nothing moves.
pub proof fn lemma_ended_is_final(worlds: Seq<World>, width: int, height: int, i: int, j: int)
    requires
        is_run(worlds, width, height),
        0 <= i <= j < worlds.len(),
        worlds[i].status is Ended,
    ensures
        worlds[j] == worlds[i],
    decreases j - i,
{
    if i < j {
        lemma_ended_is_final(worlds, width, height, i, j - 1);
    }
}

/// A run ends at most once: after a tick that took the game from on to over,
/// no later tick of the run starts from a game that is on.
pub proof fn lemma_ends_at_most_once(worlds: Seq<World>, width: int, height: int, i: int, j: int)
    requires
        is_run(worlds, width, height),
        0 <= i < j < worlds.len(),
        worlds[i].status is Started,
        worlds[i + 1].status is Ended,
    ensures
        worlds[j].status is Ended,
{
    lemma_ended_is_final(worlds, width, height, i + 1, j);
}

/// Along a run that starts from a snake in play, the body length and the
/// pending meal together count the meals found so far: after `n` ticks they
/// exceed their sum at the start by the number of meals found in those ticks.
pub proof fn lemma_length_counts_meals(worlds: Seq<World>, width: int, height: int, n: int)
    requires
        is_run(worlds, width, height),
        0 <= n < worlds.len(),
        worlds[0].snake.wf(),
    ensures
        worlds[n].snake.wf(),
        worlds[n].snake.body.len() + worlds[n].pending() == worlds[0].snake.body.len()
            + worlds[0].pending() + meals(worlds, n),
    decreases n,
{
    if n > 0 {
        lemma_length_counts_meals(worlds, width, height, n - 1);
    }
}

} // verus!
