//! The AI tab: for now it runs the Game of Life.

use vstd::prelude::*;
use crate::tui::events::{KeyCode, KeyEvent};
use crate::tui::tabs::game_of_life::{cells, toggled, GameOfLifeState};

verus! {

/// State of the AI tab.
#[derive(Debug)]
pub struct AIState {
    pub game: GameOfLifeState,
}

impl AIState {
    /// A new random 80 by 40 board.
    pub fn new() -> (r: Self)
        ensures
            r.game.well_formed(),
            r.game.width == 80,
            r.game.height == 40,
            r.game.generation == 0,
            r.game.update_interval_ms == 125,
            !r.game.paused,
    {
        AIState { game: GameOfLifeState::new(80, 40) }
    }
}

/// Handle a key in the AI tab: space pauses or resumes, R starts again
/// with a new random board of the same size, other keys do nothing.
pub fn handle_key_event(state: &mut AIState, key: KeyEvent)
    ensures
        key.code == KeyCode::Char(' ') ==> toggled(old(state).game, final(state).game),
        (key.code == KeyCode::Char('r') || key.code == KeyCode::Char('R')) ==> {
            &&& final(state).game.well_formed()
            &&& final(state).game.width == old(state).game.width
            &&& final(state).game.height == old(state).game.height
            &&& final(state).game.generation == 0
            &&& final(state).game.update_interval_ms == 125
            &&& !final(state).game.paused
        },
        !(key.code == KeyCode::Char(' ') || key.code == KeyCode::Char('r') || key.code == KeyCode::Char('R'))
            ==> *final(state) == *old(state),
        old(state).game.well_formed() ==> final(state).game.well_formed(),
        final(state).game.width == old(state).game.width,
        final(state).game.height == old(state).game.height,
{
    match key.code {
        KeyCode::Char(' ') => {
            state.game.toggle_pause();
        },
        KeyCode::Char('r') | KeyCode::Char('R') => {
            state.game.reset();
        },
        _ => {},
    }
}

} // verus!
