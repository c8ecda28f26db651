use vstd::prelude::*;
use crate::grid::{Cell, GRID_SIZE, all_cells, field_cell, lemma_field_cells};

verus! {

/// Tick period of the medium difficulty, in milliseconds; the other
/// difficulties scale it.
pub const BASE_GAME_SPEED_MS: u64 = 500;

/// How fast the game runs.
#[derive(Clone, Copy, Debug, PartialEq, Eq, Structural)]
pub enum GameDifficulty {
    Easy,
    Medium,
    Hard,
    Extreme,
}

/// Tick period of a difficulty, in milliseconds: the base period times
/// 1.25, 1, 0.5 or 0.25.
pub open spec fn tick_ms_of(d: GameDifficulty) -> int {
    match d {
        GameDifficulty::Easy => BASE_GAME_SPEED_MS as int * 5 / 4,
        GameDifficulty::Medium => BASE_GAME_SPEED_MS as int,
        GameDifficulty::Hard => BASE_GAME_SPEED_MS as int / 2,
        GameDifficulty::Extreme => BASE_GAME_SPEED_MS as int / 4,
    }
}

impl GameDifficulty {
    /// Tick period of this difficulty, in milliseconds.
    pub fn get_tick_rate(&self) -> (ms: u64)
        ensures
            ms == tick_ms_of(*self),
            0 < ms <= tick_ms_of(GameDifficulty::Easy),
    {
        match self {
            GameDifficulty::Easy => BASE_GAME_SPEED_MS * 5 / 4,
            GameDifficulty::Medium => BASE_GAME_SPEED_MS,
            GameDifficulty::Hard => BASE_GAME_SPEED_MS / 2,
            GameDifficulty::Extreme => BASE_GAME_SPEED_MS / 4,
        }
    }
}

impl Default for GameDifficulty {
    fn default() -> (d: GameDifficulty)
        ensures
            d == GameDifficulty::Medium,
    {
        GameDifficulty::Medium
    }
}

/// A timer that counts elapsed milliseconds against a duration. A repeating
/// timer starts over when it finishes, keeping what ran past the duration; a
/// timer that does not repeat stays finished.
#[derive(Clone, Copy, Debug, PartialEq, Eq, Structural)]
pub struct Timer {
    pub duration_ms: u64,
    pub elapsed_ms: u64,
    pub repeating: bool,
    /// The duration has been reached.
    pub finished: bool,
    /// The duration was reached during the last tick.
    pub just_finished: bool,
}

/// The timer after `delta` more milliseconds.
pub open spec fn ticked(t: Timer, delta: int) -> Timer {
    let total = t.elapsed_ms + delta;
    if !t.repeating && t.finished {
        Timer { just_finished: false, ..t }
    } else if total < t.duration_ms {
        Timer { elapsed_ms: total as u64, finished: false, just_finished: false, ..t }
    } else if t.repeating {
        Timer {
            elapsed_ms: (if t.duration_ms == 0 {
                0
            } else {
                total % (t.duration_ms as int)
            }) as u64,
            finished: true,
            just_finished: true,
            ..t
        }
    } else {
        Timer { elapsed_ms: t.duration_ms, finished: true, just_finished: true, ..t }
    }
}

/// The timer started over with a duration of `ms`.
pub open spec fn restarted(t: Timer, ms: int) -> Timer {
    Timer {
        duration_ms: ms as u64,
        elapsed_ms: 0,
        finished: false,
        just_finished: false,
        repeating: t.repeating,
    }
}

impl Timer {
    /// A timer of `duration_ms` that has not run yet.
    pub fn from_millis(duration_ms: u64, repeating: bool) -> (t: Timer)
        ensures
            t == (Timer {
                duration_ms,
                elapsed_ms: 0,
                repeating,
                finished: false,
                just_finished: false,
            }),
    {
        Timer { duration_ms, elapsed_ms: 0, repeating, finished: false, just_finished: false }
    }

    /// Lets `delta` milliseconds pass.
    pub fn tick(&mut self, delta: u64)
        requires
            old(self).elapsed_ms <= old(self).duration_ms,
        ensures
            *final(self) == ticked(*old(self), delta as int),
            final(self).elapsed_ms <= final(self).duration_ms,
    {
        if !self.repeating && self.finished {
            self.just_finished = false;
            return;
        }
        let total: u128 = self.elapsed_ms as u128 + delta as u128;
        if total < self.duration_ms as u128 {
            self.elapsed_ms = total as u64;
            self.finished = false;
            self.just_finished = false;
        } else if self.repeating {
            self.elapsed_ms = if self.duration_ms == 0 {
                0
            } else {
                (total % self.duration_ms as u128) as u64
            };
            self.finished = true;
            self.just_finished = true;
        } else {
            self.elapsed_ms = self.duration_ms;
            self.finished = true;
            self.just_finished = true;
        }
    }

    /// Starts the timer over with a duration of `ms`.
    pub fn restart(&mut self, ms: u64)
        ensures
            *final(self) == restarted(*old(self), ms as int),
    {
        self.duration_ms = ms;
        self.elapsed_ms = 0;
        self.finished = false;
        self.just_finished = false;
    }

    /// The duration was reached during the last tick.
    pub fn just_finished(&self) -> (r: bool)
        ensures
            r == self.just_finished,
    {
        self.just_finished
    }
}

/// The settings of a game: its difficulty, the timer that paces its ticks,
/// and every cell of the field.
#[derive(Debug)]
pub struct GameConfiguration {
    pub current_difficulty: GameDifficulty,
    pub tick_timer: Timer,
    pub field: Vec<Cell>,
}

impl GameConfiguration {
    /// The field holds every cell once, row by row; the tick timer repeats
    /// and has not run past its duration.
    pub open spec fn wf(&self) -> bool {
        &&& self.field@.len() == GRID_SIZE * GRID_SIZE
        &&& forall|i: int| 0 <= i < self.field@.len() ==> #[trigger] self.field@[i] == field_cell(i)
        &&& self.tick_timer.repeating
        &&& self.tick_timer.elapsed_ms <= self.tick_timer.duration_ms
    }

    /// A configuration for `difficulty`, with its tick timer not yet run.
    pub fn new(difficulty: GameDifficulty) -> (c: GameConfiguration)
        ensures
            c.wf(),
            c.current_difficulty == difficulty,
            c.tick_timer == Timer::from_millis_spec(tick_ms_of(difficulty)),
    {
        let field = all_cells();
        GameConfiguration {
            current_difficulty: difficulty,
            tick_timer: Timer::from_millis(difficulty.get_tick_rate(), true),
            field,
        }
    }

    /// Switches to `difficulty` and starts the tick timer over at its period.
    pub fn set_difficulty_and_reset_timer(&mut self, difficulty: GameDifficulty)
        requires
            old(self).wf(),
        ensures
            final(self).wf(),
            final(self).current_difficulty == difficulty,
            final(self).tick_timer == restarted(old(self).tick_timer, tick_ms_of(difficulty)),
            final(self).field@ == old(self).field@,
    {
        self.current_difficulty = difficulty;
        self.set_game_speed(difficulty.get_tick_rate());
    }

    /// Starts the tick timer over with a period of `game_speed_ms`.
    pub fn set_game_speed(&mut self, game_speed_ms: u64)
        requires
            old(self).wf(),
        ensures
            final(self).wf(),
            final(self).current_difficulty == old(self).current_difficulty,
            final(self).tick_timer == restarted(old(self).tick_timer, game_speed_ms as int),
            final(self).field@ == old(self).field@,
    {
        self.tick_timer.restart(game_speed_ms);
    }

    /// Lets `delta` milliseconds pass on the tick timer.
    pub fn advance_timer(&mut self, delta: u64)
        requires
            old(self).wf(),
        ensures
            final(self).wf(),
            final(self).current_difficulty == old(self).current_difficulty,
            final(self).tick_timer == ticked(old(self).tick_timer, delta as int),
            final(self).field@ == old(self).field@,
    {
        self.tick_timer.tick(delta);
    }
}

impl Default for GameConfiguration {
    fn default() -> (c: GameConfiguration)
        ensures
            c.wf(),
            c.current_difficulty == GameDifficulty::Medium,
            c.tick_timer == Timer::from_millis_spec(tick_ms_of(GameDifficulty::Medium)),
    {
        GameConfiguration::new(GameDifficulty::Medium)
    }
}

impl Timer {
    /// A repeating timer of `ms` that has not run yet.
    pub open spec fn from_millis_spec(ms: int) -> Timer {
        Timer {
            duration_ms: ms as u64,
            elapsed_ms: 0,
            repeating: true,
            finished: false,
            just_finished: false,
        }
    }
}

/// The field of a well-formed configuration holds every cell of the grid
/// exactly once.
pub proof fn lemma_field_complete(c: &GameConfiguration)
    requires
        c.wf(),
    ensures
        c.field@.no_duplicates(),
        forall|i: int| 0 <= i < c.field@.len() ==> crate::grid::in_grid(#[trigger] c.field@[i]),
{
    assert forall|a: int, b: int|
        0 <= a < c.field@.len() && 0 <= b < c.field@.len() && a != b implies c.field@[a]
        != c.field@[b] by {
        lemma_field_cells(a, b);
    }
    assert forall|i: int| 0 <= i < c.field@.len() implies crate::grid::in_grid(
        #[trigger] c.field@[i],
    ) by {
        lemma_field_cells(i, i);
    }
}

/// Restoring a saved difficulty gives back the tick period the difficulty
/// had when it was saved, whatever speed was set in between: for each of
/// the four difficulties, 625, 500, 250 or 125 milliseconds.
pub proof fn lemma_difficulty_round_trip(t: Timer, d: GameDifficulty, other_ms: u64)
    ensures
        restarted(restarted(restarted(t, tick_ms_of(d)), other_ms as int), tick_ms_of(d))
            == restarted(t, tick_ms_of(d)),
        restarted(t, tick_ms_of(d)).duration_ms == tick_ms_of(d),
        tick_ms_of(GameDifficulty::Easy) == 625,
        tick_ms_of(GameDifficulty::Medium) == 500,
        tick_ms_of(GameDifficulty::Hard) == 250,
        tick_ms_of(GameDifficulty::Extreme) == 125,
{
}

} // verus!
