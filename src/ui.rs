use vstd::prelude::*;
use crate::game::GameState;

verus! {

/// Which of the game's screens and overlays are shown: the start menu with
/// the difficulty buttons, the running score, the pause notice, and the menu
/// that shows the final score.
#[derive(Clone, Copy, Debug, PartialEq, Eq, Structural)]
pub struct SnakeUiPlugins {
    pub start_menu: bool,
    pub score: bool,
    pub pause: bool,
    pub finish_menu: bool,
}

impl SnakeUiPlugins {
    /// The screens shown in `state`; the pause notice shows only over a
    /// paused game.
    pub fn build(state: GameState, paused: bool) -> (ui: SnakeUiPlugins)
        ensures
            ui.start_menu == (state == GameState::StartMenu),
            ui.score == (state == GameState::InGame),
            ui.pause == (state == GameState::InGame && paused),
            ui.finish_menu == (state == GameState::FinishMenu),
    {
        let in_game = state == GameState::InGame;
        SnakeUiPlugins {
            start_menu: state == GameState::StartMenu,
            score: in_game,
            pause: in_game && paused,
            finish_menu: state == GameState::FinishMenu,
        }
    }
}

} // verus!
