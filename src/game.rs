use vstd::prelude::*;
use crate::config::{
    GameConfiguration, GameDifficulty, Timer, lemma_field_complete, restarted, ticked, tick_ms_of,
};
use crate::direction::Direction;
use crate::food::{Food, free_of, lemma_free_of_keeps, random_pos_food_bundle};
use crate::grid::{Cell, GRID_CENTER, field_cell, in_grid};
use crate::input::{pushed, turned_direction, turned_queue};
use crate::powerup::{Powerup, power_of, speed_of};
use crate::snake::{Snake, advanced, bites_itself, shortened};

verus! {

/// The screens the game moves through: the start menu, a game under way,
/// and the menu that shows the final score.
#[derive(Clone, Copy, Debug, PartialEq, Eq, Structural)]
pub enum GameState {
    StartMenu,
    InGame,
    FinishMenu,
}

/// Foods eaten in the current game.
#[derive(Clone, Copy, Debug, PartialEq, Eq, Structural)]
pub struct Score(pub u32);

/// Food to be placed at random after a tick: `amount` pieces, of kind
/// `powerup` or, when none is given, each of a kind rolled for it.
#[derive(Clone, Copy, Debug, PartialEq, Eq, Structural)]
pub struct SpawnRequest {
    pub powerup: Option<Powerup>,
    pub amount: u32,
}

/// What one tick did.
#[derive(Debug)]
pub struct TickOutcome {
    /// The facing the head moved in.
    pub direction: Direction,
    /// The foods the head reached, in the order they lay on the field.
    pub eaten: Vec<Food>,
    /// The head ran into the tail and the game is over.
    pub self_collision: bool,
    /// Food to place now.
    pub spawn: Option<SpawnRequest>,
}

/// The foods of `foods` that lie on `c`, in order.
pub open spec fn foods_at(foods: Seq<Food>, c: Cell) -> Seq<Food>
    decreases foods.len(),
{
    if foods.len() == 0 {
        Seq::<Food>::empty()
    } else {
        let rest = foods_at(foods.drop_last(), c);
        if foods.last().cell == c {
            rest.push(foods.last())
        } else {
            rest
        }
    }
}

/// The foods of `foods` that do not lie on `c`, in order.
pub open spec fn foods_off(foods: Seq<Food>, c: Cell) -> Seq<Food>
    decreases foods.len(),
{
    if foods.len() == 0 {
        Seq::<Food>::empty()
    } else {
        let rest = foods_off(foods.drop_last(), c);
        if foods.last().cell == c {
            rest
        } else {
            rest.push(foods.last())
        }
    }
}

/// The body after the eaten foods take effect, one after the other: a
/// shortening food removes `power_of(Shorten)` segments from the tail, never
/// the head, and any other food adds a segment where the tail ends.
pub open spec fn fed(parts: Seq<Cell>, eaten: Seq<Food>) -> Seq<Cell>
    decreases eaten.len(),
{
    if eaten.len() == 0 {
        parts
    } else {
        let p = fed(parts, eaten.drop_last());
        if eaten.last().powerup == Powerup::Shorten {
            shortened(p, power_of(Powerup::Shorten))
        } else {
            p.push(p.last())
        }
    }
}

/// One of the eaten foods slows the game down.
pub open spec fn eats_slowdown(eaten: Seq<Food>) -> bool {
    exists|i: int| 0 <= i < eaten.len() && #[trigger] eaten[i].powerup == Powerup::Slowdown
}

/// Tick period while a slowdown lasts: the difficulty's period times the
/// slowdown factor.
pub open spec fn slow_ms_of(d: GameDifficulty) -> int {
    tick_ms_of(d) * speed_of(Powerup::Slowdown)
}

/// The score after `n` more foods, held at the largest `u32`.
pub open spec fn score_after(s: u32, n: int) -> u32 {
    if s + n > u32::MAX {
        u32::MAX
    } else {
        (s + n) as u32
    }
}

/// What to place after the foods `eaten` when `left` foods remain on the
/// field: the first food eaten decides. A feast asks for `power_of(Feast)`
/// foods of rolled kinds; any other asks for one food of a rolled kind, and
/// only when no food is left.
pub open spec fn spawn_after(eaten: Seq<Food>, left: int) -> Option<SpawnRequest> {
    if eaten.len() == 0 {
        None
    } else if eaten[0].powerup == Powerup::Feast {
        Some(SpawnRequest { powerup: None, amount: power_of(Powerup::Feast) as u32 })
    } else if left == 0 {
        Some(SpawnRequest { powerup: None, amount: 1 })
    } else {
        None
    }
}

/// The cells that a snake's body and the foods cover.
pub open spec fn occupied_of(parts: Seq<Cell>, foods: Seq<Food>) -> Seq<Cell> {
    parts + foods.map_values(|f: Food| f.cell)
}

/// The planned turns after the requests `moves`, taken in order.
pub open spec fn pushed_all(planned: Seq<Direction>, current: Direction, moves: Seq<Direction>) -> Seq<
    Direction,
>
    decreases moves.len(),
{
    if moves.len() == 0 {
        planned
    } else {
        pushed(pushed_all(planned, current, moves.drop_last()), current, moves.last())
    }
}

/// A timer that is not running: no slowdown is under way.
pub open spec fn idle_timer() -> Timer {
    Timer { duration_ms: 0, elapsed_ms: 0, repeating: false, finished: true, just_finished: false }
}

/// The whole state of a game.
#[derive(Debug)]
pub struct Game {
    pub state: GameState,
    pub config: GameConfiguration,
    /// The snake, while a game is under way.
    pub snake: Option<Snake>,
    pub foods: Vec<Food>,
    pub score: Score,
    /// Time stands still and moves are ignored.
    pub paused: bool,
    /// Runs while a slowdown lasts; when it finishes the difficulty's own
    /// period comes back.
    pub slowdown_timer: Timer,
}

/// Splits `foods` into those on `c` and the others, each in order.
pub fn split_foods(foods: &Vec<Food>, c: Cell) -> (r: (Vec<Food>, Vec<Food>))
    ensures
        r.0@ == foods_at(foods@, c),
        r.1@ == foods_off(foods@, c),
{
    let mut at: Vec<Food> = Vec::new();
    let mut off: Vec<Food> = Vec::new();
    let mut i: usize = 0;
    while i < foods.len()
        invariant
            i <= foods@.len(),
            at@ == foods_at(foods@.subrange(0, i as int), c),
            off@ == foods_off(foods@.subrange(0, i as int), c),
        decreases foods@.len() - i,
    {
        let f = foods[i];
        assert(foods@.subrange(0, i + 1).drop_last() =~= foods@.subrange(0, i as int));
        if f.cell == c {
            at.push(f);
        } else {
            off.push(f);
        }
        i = i + 1;
    }
    assert(foods@.subrange(0, foods@.len() as int) =~= foods@);
    (at, off)
}

/// Every food left after a split is one of the foods it was split from.
pub proof fn lemma_foods_off(foods: Seq<Food>, c: Cell)
    ensures
        forall|i: int|
            0 <= i < foods_off(foods, c).len() ==> foods.contains(#[trigger] foods_off(foods, c)[i]),
    decreases foods.len(),
{
    if foods.len() > 0 {
        let init = foods.drop_last();
        lemma_foods_off(init, c);
        let rest = foods_off(init, c);
        assert forall|k: int| 0 <= k < rest.len() implies foods.contains(#[trigger] rest[k]) by {
            let j = choose|j: int| 0 <= j < init.len() && init[j] == rest[k];
            assert(foods[j] == rest[k]);
        }
        assert(foods[foods.len() - 1] == foods.last());
    }
}

/// Over one tick the snake keeps its length unless it eats: a food other than
/// a shortening one adds exactly one segment, and a shortening food removes
/// `power_of(Shorten)` segments, never the head.
pub proof fn lemma_tick_length(parts: Seq<Cell>, d: Direction, eaten: Seq<Food>)
    requires
        parts.len() >= 1,
    ensures
        advanced(parts, d).len() == parts.len(),
        eaten.len() == 0 ==> fed(advanced(parts, d), eaten).len() == parts.len(),
        eaten.len() == 1 && eaten[0].powerup != Powerup::Shorten ==> fed(
            advanced(parts, d),
            eaten,
        ).len() == parts.len() + 1,
        eaten.len() == 1 && eaten[0].powerup == Powerup::Shorten ==> fed(
            advanced(parts, d),
            eaten,
        ).len() == (if parts.len() - power_of(Powerup::Shorten) < 1 {
            1
        } else {
            parts.len() - power_of(Powerup::Shorten)
        }),
{
    let moved = advanced(parts, d);
    if eaten.len() == 1 {
        assert(eaten.drop_last().len() == 0);
        assert(eaten.last() == eaten[0]);
        assert(fed(moved, eaten.drop_last()) == moved);
    }
}

impl Game {
    /// The parts of a game fit together: the snake exists exactly while a
    /// game is under way, food lies on the field and only during a game, and
    /// the timers are of their kinds.
    pub open spec fn wf(&self) -> bool {
        &&& self.config.wf()
        &&& !self.slowdown_timer.repeating
        &&& self.slowdown_timer.elapsed_ms <= self.slowdown_timer.duration_ms
        &&& (self.state == GameState::InGame) == (self.snake is Some)
        &&& self.snake matches Some(s) ==> s.wf()
        &&& self.state != GameState::InGame ==> self.foods@.len() == 0
        &&& forall|i: int| 0 <= i < self.foods@.len() ==> in_grid(#[trigger] self.foods@[i].cell)
    }

    /// Lets the eaten foods take effect on the snake and the speed of the game.
    fn apply_eaten(&mut self, snake: &mut Snake, eaten: &Vec<Food>)
        requires
            old(self).config.wf(),
            !old(self).slowdown_timer.repeating,
            old(snake).wf(),
        ensures
            final(snake).wf(),
            final(snake).head == old(snake).head,
            final(snake).parts@ == fed(old(snake).parts@, eaten@),
            final(self).config.wf(),
            !final(self).slowdown_timer.repeating,
            final(self).slowdown_timer.elapsed_ms <= final(self).slowdown_timer.duration_ms
                || final(self).slowdown_timer == old(self).slowdown_timer,
            final(self).config.current_difficulty == old(self).config.current_difficulty,
            final(self).config.field@ == old(self).config.field@,
            eats_slowdown(eaten@) ==> final(self).config.tick_timer == restarted(
                old(self).config.tick_timer,
                slow_ms_of(old(self).config.current_difficulty),
            ) && final(self).slowdown_timer == restarted(
                old(self).slowdown_timer,
                slow_ms_of(old(self).config.current_difficulty) * power_of(Powerup::Slowdown),
            ),
            !eats_slowdown(eaten@) ==> final(self).config.tick_timer == old(self).config.tick_timer
                && final(self).slowdown_timer == old(self).slowdown_timer,
            final(self).state == old(self).state,
            final(self).snake == old(self).snake,
            final(self).foods == old(self).foods,
            final(self).score == old(self).score,
            final(self).paused == old(self).paused,
    {
        let mut i: usize = 0;
        while i < eaten.len()
            invariant
                i <= eaten@.len(),
                snake.wf(),
                snake.head == old(snake).head,
                snake.parts@ == fed(old(snake).parts@, eaten@.subrange(0, i as int)),
                self.config.wf(),
                !self.slowdown_timer.repeating,
                self.config.current_difficulty == old(self).config.current_difficulty,
                self.config.field@ == old(self).config.field@,
                eats_slowdown(eaten@.subrange(0, i as int)) ==> self.config.tick_timer
                    == restarted(
                    old(self).config.tick_timer,
                    slow_ms_of(old(self).config.current_difficulty),
                ) && self.slowdown_timer == restarted(
                    old(self).slowdown_timer,
                    slow_ms_of(old(self).config.current_difficulty) * power_of(Powerup::Slowdown),
                ),
                !eats_slowdown(eaten@.subrange(0, i as int)) ==> self.config.tick_timer
                    == old(self).config.tick_timer && self.slowdown_timer
                    == old(self).slowdown_timer,
                self.state == old(self).state,
                self.snake == old(self).snake,
                self.foods == old(self).foods,
                self.score == old(self).score,
                self.paused == old(self).paused,
            decreases eaten@.len() - i,
        {
            let f = eaten[i];
            let ghost prefix = eaten@.subrange(0, i as int);
            let ghost next = eaten@.subrange(0, i + 1);
            assert(next.drop_last() =~= prefix);
            assert(next.last() == f);
            if f.powerup == Powerup::Shorten {
                snake.remove_tails(Powerup::Shorten.power());
            } else {
                snake.new_tail();
            }
            if f.powerup == Powerup::Slowdown {
                let rate = self.config.current_difficulty.get_tick_rate();
                let speed = Powerup::Slowdown.speed() as u64;
                let power = Powerup::Slowdown.power() as u64;
                assert(tick_ms_of(GameDifficulty::Easy) == 625);
                let slow = rate * speed;
                self.config.set_game_speed(slow);
                self.slowdown_timer.restart(slow * power);
                assert(next[i as int].powerup == Powerup::Slowdown);
            }
            proof {
                if eats_slowdown(prefix) {
                    let j = choose|j: int| 0 <= j < prefix.len() && #[trigger] prefix[j].powerup
                        == Powerup::Slowdown;
                    assert(next[j] == prefix[j]);
                }
                if eats_slowdown(next) && f.powerup != Powerup::Slowdown {
                    let j = choose|j: int| 0 <= j < next.len() && #[trigger] next[j].powerup
                        == Powerup::Slowdown;
                    assert(j != i);
                    assert(prefix[j] == next[j]);
                }
            }
            i = i + 1;
        }
        assert(eaten@.subrange(0, eaten@.len() as int) =~= eaten@);
    }

    /// One tick of a game under way. The head settles its facing and the
    /// body moves one cell; the foods under the head are eaten, each scoring
    /// one point; if the head ran into a tail of more than one segment the
    /// game is over and the snake and the food are cleared away; otherwise
    /// the eaten foods take effect, in order, and the outcome says what food
    /// to place next. A slowdown doubles the tick period of the difficulty
    /// for twenty ticks of the slower pace.
    pub fn tick(&mut self) -> (out: TickOutcome)
        requires
            old(self).wf(),
            old(self).state == GameState::InGame,
        ensures
            final(self).wf(),
            old(self).snake matches Some(s0) ==> {
                let d = turned_direction(s0.head.planned_direction@, s0.head.direction);
                let moved = advanced(s0.parts@, d);
                let eaten = foods_at(old(self).foods@, moved[0]);
                let left = foods_off(old(self).foods@, moved[0]);
                &&& out.direction == d
                &&& out.eaten@ == eaten
                &&& out.self_collision == bites_itself(moved)
                &&& final(self).score == Score(score_after(old(self).score.0, eaten.len() as int))
                &&& final(self).paused == old(self).paused
                &&& final(self).config.current_difficulty == old(self).config.current_difficulty
                &&& final(self).config.field@ == old(self).config.field@
                &&& bites_itself(moved) ==> {
                    &&& final(self).state == GameState::FinishMenu
                    &&& final(self).snake is None
                    &&& final(self).foods@.len() == 0
                    &&& out.spawn is None
                    &&& final(self).config.tick_timer == old(self).config.tick_timer
                    &&& final(self).slowdown_timer == old(self).slowdown_timer
                }
                &&& !bites_itself(moved) ==> {
                    &&& final(self).state == GameState::InGame
                    &&& final(self).snake matches Some(s1) && s1.parts@ == fed(moved, eaten)
                        && s1.head.direction == d && s1.head.planned_direction@ == turned_queue(
                        s0.head.planned_direction@,
                        s0.head.direction,
                    )
                    &&& final(self).foods@ == left
                    &&& out.spawn == spawn_after(eaten, left.len() as int)
                    &&& eats_slowdown(eaten) ==> final(self).config.tick_timer == restarted(
                        old(self).config.tick_timer,
                        slow_ms_of(old(self).config.current_difficulty),
                    ) && final(self).slowdown_timer == restarted(
                        old(self).slowdown_timer,
                        slow_ms_of(old(self).config.current_difficulty) * power_of(
                            Powerup::Slowdown,
                        ),
                    )
                    &&& !eats_slowdown(eaten) ==> final(self).config.tick_timer == old(
                        self,
                    ).config.tick_timer && final(self).slowdown_timer == old(self).slowdown_timer
                }
            },
    {
        let mut snake = self.snake.take().unwrap();
        let direction = snake.advance();
        let head = snake.head_cell();
        let (eaten, left) = split_foods(&self.foods, head);
        proof {
            lemma_foods_off(self.foods@, head);
        }
        self.foods = left;
        let total: u128 = self.score.0 as u128 + eaten.len() as u128;
        self.score = if total > u32::MAX as u128 {
            Score(u32::MAX)
        } else {
            Score(total as u32)
        };
        if snake.self_collision() {
            self.state = GameState::FinishMenu;
            self.foods = Vec::new();
            return TickOutcome { direction, eaten, self_collision: true, spawn: None };
        }
        self.apply_eaten(&mut snake, &eaten);
        self.snake = Some(snake);
        let spawn = if eaten.len() == 0 {
            None
        } else if eaten[0].powerup == Powerup::Feast {
            Some(SpawnRequest { powerup: None, amount: Powerup::Feast.power() })
        } else if self.foods.len() == 0 {
            Some(SpawnRequest { powerup: None, amount: 1 })
        } else {
            None
        };
        TickOutcome { direction, eaten, self_collision: false, spawn }
    }

    /// A game at the start menu, at medium difficulty.
    pub fn new() -> (g: Game)
        ensures
            g.wf(),
            g.state == GameState::StartMenu,
            g.config.current_difficulty == GameDifficulty::Medium,
            g.snake is None,
            g.foods@.len() == 0,
            g.score == Score(0),
            !g.paused,
            g.slowdown_timer == idle_timer(),
    {
        Game {
            state: GameState::StartMenu,
            config: GameConfiguration::new(GameDifficulty::Medium),
            snake: None,
            foods: Vec::new(),
            score: Score(0),
            paused: false,
            slowdown_timer: Timer {
                duration_ms: 0,
                elapsed_ms: 0,
                repeating: false,
                finished: true,
                just_finished: false,
            },
        }
    }

    /// The cells that the snake and the foods cover.
    pub fn occupied_cells(&self) -> (r: Vec<Cell>)
        requires
            self.snake is Some,
        ensures
            r@ == occupied_of(self.snake->0.parts@, self.foods@),
    {
        let mut r: Vec<Cell> = Vec::new();
        match &self.snake {
            Some(s) => {
                let mut i: usize = 0;
                while i < s.parts.len()
                    invariant
                        i <= s.parts@.len(),
                        r@ == s.parts@.subrange(0, i as int),
                    decreases s.parts@.len() - i,
                {
                    r.push(s.parts[i]);
                    i = i + 1;
                }
            },
            None => {},
        }
        let ghost body = r@;
        let mut j: usize = 0;
        while j < self.foods.len()
            invariant
                j <= self.foods@.len(),
                r@ == body + self.foods@.subrange(0, j as int).map_values(|f: Food| f.cell),
            decreases self.foods@.len() - j,
        {
            r.push(self.foods[j].cell);
            assert(self.foods@.subrange(0, j + 1).map_values(|f: Food| f.cell) =~= self.foods@.subrange(
                0,
                j as int,
            ).map_values(|f: Food| f.cell).push(self.foods@[j as int].cell));
            j = j + 1;
        }
        assert(self.foods@.subrange(0, self.foods@.len() as int) =~= self.foods@);
        assert(body =~= self.snake->0.parts@);
        r
    }

    /// Places the food that `req` asks for at random on cells that neither
    /// the snake nor any food covers. Nothing is placed when too few cells
    /// are free.
    pub fn spawn_food(&mut self, req: SpawnRequest) -> (placed: bool)
        requires
            old(self).wf(),
            old(self).state == GameState::InGame,
        ensures
            final(self).wf(),
            final(self).state == old(self).state,
            final(self).snake == old(self).snake,
            final(self).score == old(self).score,
            final(self).paused == old(self).paused,
            final(self).config == old(self).config,
            final(self).slowdown_timer == old(self).slowdown_timer,
            placed <==> free_of(
                old(self).config.field@,
                occupied_of(old(self).snake->0.parts@, old(self).foods@),
            ).len() >= req.amount,
            !placed ==> final(self).foods@ == old(self).foods@,
            placed ==> {
                let occ = occupied_of(old(self).snake->0.parts@, old(self).foods@);
                let n = old(self).foods@.len();
                &&& final(self).foods@.len() == n + req.amount
                &&& final(self).foods@.subrange(0, n as int) == old(self).foods@
                &&& forall|i: int|
                    n <= i < final(self).foods@.len() ==> !occ.contains(
                        (#[trigger] final(self).foods@[i]).cell,
                    )
                &&& forall|i: int, j: int|
                    n <= i < final(self).foods@.len() && n <= j < final(self).foods@.len() && i
                        != j ==> (#[trigger] final(self).foods@[i]).cell
                        != (#[trigger] final(self).foods@[j]).cell
                &&& req.powerup matches Some(p) ==> forall|i: int|
                    n <= i < final(self).foods@.len() ==> (#[trigger] final(self).foods@[i]).powerup
                        == p
            },
    {
        let occupied = self.occupied_cells();
        proof {
            lemma_field_complete(&self.config);
        }
        match random_pos_food_bundle(&self.config.field, &occupied, req.powerup, Some(req.amount)) {
            Some(new_foods) => {
                let ghost before = self.foods@;
                let mut i: usize = 0;
                while i < new_foods.len()
                    invariant
                        i <= new_foods@.len(),
                        self.foods@ == before + new_foods@.subrange(0, i as int),
                        self.state == old(self).state,
                        self.snake == old(self).snake,
                        self.score == old(self).score,
                        self.paused == old(self).paused,
                        self.config == old(self).config,
                        self.slowdown_timer == old(self).slowdown_timer,
                        forall|k: int| 0 <= k < before.len() ==> in_grid(#[trigger] before[k].cell),
                        forall|k: int|
                            0 <= k < new_foods@.len() ==> self.config.field@.contains(
                                (#[trigger] new_foods@[k]).cell,
                            ),
                        forall|k: int|
                            0 <= k < self.config.field@.len() ==> in_grid(
                                #[trigger] self.config.field@[k],
                            ),
                    decreases new_foods@.len() - i,
                {
                    self.foods.push(new_foods[i]);
                    i = i + 1;
                }
                proof {
                    assert(new_foods@.subrange(0, new_foods@.len() as int) =~= new_foods@);
                    assert(self.foods@.subrange(0, before.len() as int) =~= before);
                    assert forall|k: int| 0 <= k < self.foods@.len() implies in_grid(
                        #[trigger] self.foods@[k].cell,
                    ) by {
                        if k >= before.len() {
                            let c = new_foods@[k - before.len()].cell;
                            let j = choose|j: int|
                                0 <= j < self.config.field@.len() && self.config.field@[j] == c;
                        }
                    }
                }
                true
            },
            None => false,
        }
    }

    /// Leaves the start menu for a new game at `difficulty`: the score is
    /// reset, a snake of a head alone starts in the middle facing up, and one
    /// normal food is placed at random off the snake. Outside the start menu
    /// nothing happens.
    pub fn start(&mut self, difficulty: GameDifficulty) -> (started: bool)
        requires
            old(self).wf(),
        ensures
            final(self).wf(),
            started == (old(self).state == GameState::StartMenu),
            !started ==> {
                &&& final(self).state == old(self).state
                &&& final(self).snake == old(self).snake
                &&& final(self).foods@ == old(self).foods@
                &&& final(self).score == old(self).score
                &&& final(self).paused == old(self).paused
                &&& final(self).config == old(self).config
                &&& final(self).slowdown_timer == old(self).slowdown_timer
            },
            started ==> {
                &&& final(self).state == GameState::InGame
                &&& final(self).config.current_difficulty == difficulty
                &&& final(self).config.tick_timer == restarted(
                    old(self).config.tick_timer,
                    tick_ms_of(difficulty),
                )
                &&& final(self).snake matches Some(s) && s.parts@ == seq![
                    Cell { x: GRID_CENTER, y: GRID_CENTER },
                ] && s.head.direction == Direction::Up && s.head.planned_direction@.len() == 0
                &&& final(self).score == Score(0)
                &&& !final(self).paused
                &&& final(self).slowdown_timer == idle_timer()
                &&& final(self).foods@.len() == 1
                &&& final(self).foods@[0].powerup == Powerup::Normal
                &&& final(self).foods@[0].cell != (Cell { x: GRID_CENTER, y: GRID_CENTER })
            },
    {
        if self.state != GameState::StartMenu {
            return false;
        }
        self.config.set_difficulty_and_reset_timer(difficulty);
        self.state = GameState::InGame;
        self.score = Score(0);
        self.paused = false;
        self.slowdown_timer = Timer {
            duration_ms: 0,
            elapsed_ms: 0,
            repeating: false,
            finished: true,
            just_finished: false,
        };
        self.snake = Some(Snake::create());
        self.foods = Vec::new();
        proof {
            let field = self.config.field@;
            let occ = occupied_of(self.snake->0.parts@, self.foods@);
            let corner = field[0];
            assert(corner == field_cell(0));
            assert(occ =~= seq![Cell { x: GRID_CENTER, y: GRID_CENTER }]);
            assert(field.contains(corner));
            assert(!occ.contains(corner)) by {
                if occ.contains(corner) {
                    let k = choose|k: int| 0 <= k < occ.len() && occ[k] == corner;
                    assert(occ[k] == occ[0]);
                }
            }
            lemma_free_of_keeps(field, occ, corner);
            assert(free_of(field, occ).len() >= 1);
        }
        let placed = self.spawn_food(SpawnRequest { powerup: Some(Powerup::Normal), amount: 1 });
        proof {
            let f = self.foods@[0];
            let occ = occupied_of(seq![Cell { x: GRID_CENTER, y: GRID_CENTER }], Seq::<Food>::empty());
            assert(occ[0] == (Cell { x: GRID_CENTER, y: GRID_CENTER }));
            assert(!occ.contains(f.cell));
        }
        true
    }

    /// Leaves the menu that shows the final score for the start menu, and
    /// resets the score. Outside that menu nothing happens.
    pub fn acknowledge(&mut self) -> (left: bool)
        requires
            old(self).wf(),
        ensures
            final(self).wf(),
            left == (old(self).state == GameState::FinishMenu),
            left ==> final(self).state == GameState::StartMenu && final(self).score == Score(0),
            !left ==> final(self).state == old(self).state && final(self).score == old(self).score,
            final(self).snake == old(self).snake,
            final(self).foods@ == old(self).foods@,
            final(self).paused == old(self).paused,
            final(self).config == old(self).config,
            final(self).slowdown_timer == old(self).slowdown_timer,
    {
        if self.state != GameState::FinishMenu {
            return false;
        }
        self.state = GameState::StartMenu;
        self.score = Score(0);
        true
    }

    /// Pauses a running game, or resumes a paused one.
    pub fn pause_game(&mut self)
        requires
            old(self).wf(),
        ensures
            final(self).wf(),
            final(self).paused == !old(self).paused,
            final(self).state == old(self).state,
            final(self).snake == old(self).snake,
            final(self).foods@ == old(self).foods@,
            final(self).score == old(self).score,
            final(self).config == old(self).config,
            final(self).slowdown_timer == old(self).slowdown_timer,
    {
        self.paused = !self.paused;
    }

    /// Lets `delta` milliseconds pass on the slowdown timer; when it finishes
    /// the tick period of the difficulty comes back and the tick timer starts over.
    pub fn revert_slowdown_on_timer(&mut self, delta: u64)
        requires
            old(self).wf(),
        ensures
            final(self).wf(),
            final(self).slowdown_timer == ticked(old(self).slowdown_timer, delta as int),
            final(self).slowdown_timer.just_finished ==> final(self).config.tick_timer
                == restarted(
                old(self).config.tick_timer,
                tick_ms_of(old(self).config.current_difficulty),
            ),
            !final(self).slowdown_timer.just_finished ==> final(self).config.tick_timer == old(
                self,
            ).config.tick_timer,
            final(self).config.current_difficulty == old(self).config.current_difficulty,
            final(self).config.field@ == old(self).config.field@,
            final(self).state == old(self).state,
            final(self).snake == old(self).snake,
            final(self).foods@ == old(self).foods@,
            final(self).score == old(self).score,
            final(self).paused == old(self).paused,
    {
        self.slowdown_timer.tick(delta);
        if self.slowdown_timer.just_finished() {
            let old_difficulty = self.config.current_difficulty;
            self.config.set_difficulty_and_reset_timer(old_difficulty);
        }
    }

    /// Hands the requested turns to the snake's head.
    pub fn set_snake_direction(&mut self, moves: &Vec<Direction>)
        requires
            old(self).wf(),
            old(self).snake is Some,
        ensures
            final(self).wf(),
            final(self).snake matches Some(s) && s.parts@ == old(self).snake->0.parts@
                && s.head.direction == old(self).snake->0.head.direction
                && s.head.planned_direction@ == pushed_all(
                old(self).snake->0.head.planned_direction@,
                old(self).snake->0.head.direction,
                moves@,
            ),
            final(self).state == old(self).state,
            final(self).foods@ == old(self).foods@,
            final(self).score == old(self).score,
            final(self).paused == old(self).paused,
            final(self).config == old(self).config,
            final(self).slowdown_timer == old(self).slowdown_timer,
    {
        let mut snake = self.snake.take().unwrap();
        let ghost s0 = snake;
        let mut i: usize = 0;
        while i < moves.len()
            invariant
                i <= moves@.len(),
                snake.wf(),
                snake.parts@ == s0.parts@,
                snake.head.direction == s0.head.direction,
                snake.head.planned_direction@ == pushed_all(
                    s0.head.planned_direction@,
                    s0.head.direction,
                    moves@.subrange(0, i as int),
                ),
            decreases moves@.len() - i,
        {
            assert(moves@.subrange(0, i + 1).drop_last() =~= moves@.subrange(0, i as int));
            snake.head.push(moves[i]);
            i = i + 1;
        }
        assert(moves@.subrange(0, moves@.len() as int) =~= moves@);
        self.snake = Some(snake);
    }

    /// One frame of the game loop, `delta` milliseconds after the last: a
    /// press of pause toggles the pause; a running game takes the requested
    /// turns, lets the time pass, and ticks when the tick timer finishes,
    /// placing the food the tick asks for. Outside a game, or while paused,
    /// nothing else happens.
    pub fn frame(&mut self, delta: u64, moves: &Vec<Direction>, pause_pressed: bool) -> (out:
        Option<TickOutcome>)
        requires
            old(self).wf(),
        ensures
            final(self).wf(),
            old(self).state != GameState::InGame ==> out is None && final(self).state == old(
                self,
            ).state && final(self).paused == old(self).paused && final(self).score == old(
                self,
            ).score,
            old(self).state == GameState::InGame ==> final(self).paused == (old(self).paused
                != pause_pressed),
            final(self).paused ==> out is None && final(self).state == old(self).state
                && final(self).snake == old(self).snake && final(self).foods@ == old(self).foods@
                && final(self).score == old(self).score,
            out is None ==> final(self).state == old(self).state && final(self).foods@ == old(
                self,
            ).foods@ && final(self).score == old(self).score,
            out matches Some(o) ==> (o.self_collision <==> final(self).state
                == GameState::FinishMenu),
            old(self).state == GameState::InGame && !final(self).paused ==> (out is Some
                <==> ticked(old(self).config.tick_timer, delta as int).just_finished),
            old(self).state == GameState::InGame && !final(self).paused ==> (old(
                self,
            ).snake matches Some(s0) ==> {
                let q = pushed_all(s0.head.planned_direction@, s0.head.direction, moves@);
                &&& out matches Some(o) ==> o.direction == turned_direction(q, s0.head.direction)
                &&& out is None ==> (final(self).snake matches Some(s1) && s1.parts@ == s0.parts@
                    && s1.head.direction == s0.head.direction && s1.head.planned_direction@ == q)
            }),
    {
        if self.state != GameState::InGame {
            return None;
        }
        if pause_pressed {
            self.pause_game();
        }
        if self.paused {
            return None;
        }
        self.set_snake_direction(moves);
        self.config.advance_timer(delta);
        let fire = self.config.tick_timer.just_finished();
        self.revert_slowdown_on_timer(delta);
        if !fire {
            return None;
        }
        let out = self.tick();
        if !out.self_collision {
            match out.spawn {
                Some(req) => {
                    self.spawn_food(req);
                },
                None => {},
            }
        }
        Some(out)
    }
}

} // verus!