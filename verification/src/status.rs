//! Whether the game is still on.

use vstd::prelude::*;

verus! {

/// The two stages of a game.
#[derive(Clone, Copy, Debug, PartialEq, Eq)]
pub enum GameState {
    Started,
    Ended,
}

/// The stage one game is in. It begins as `Started`, and the only change it
/// offers leads to `Ended`, so a game that is over can never be on again.
#[derive(Clone, Copy, Debug, PartialEq, Eq)]
pub struct State(GameState);

impl View for State {
    type V = GameState;

    closed spec fn view(&self) -> GameState {
        self.0
    }
}

impl State {
    /// The state of a game that has just begun.
    pub fn new() -> (state: State)
        ensures
            state@ is Started,
    {
        State(GameState::Started)
    }

    /// The stage the game is in.
    pub fn status(&self) -> (status: GameState)
        ensures
            status == self@,
    {
        self.0
    }

    /// Tells whether the game is over.
    pub fn is_ended(&self) -> (ended: bool)
        ensures
            ended == (self@ is Ended),
    {
        match self.0 {
            GameState::Started => false,
            GameState::Ended => true,
        }
    }

    /// Ends the game. A game that is over stays over.
    pub fn end(&mut self)
        ensures
            final(self)@ is Ended,
    {
        self.0 = GameState::Ended;
    }
}

} // verus!
