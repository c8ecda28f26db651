use snake::config::GameDifficulty;
use snake::direction::Direction;
use snake::food::Food;
use snake::game::{Game, GameState, Score, SpawnRequest};
use snake::grid::Cell;
use snake::input::Head;
use snake::powerup::Powerup;
use snake::snake::Snake;
use snake::ui::SnakeUiPlugins;

fn c(x: u32, y: u32) -> Cell {
    Cell { x, y }
}

fn started(d: GameDifficulty) -> Game {
    let mut g = Game::new();
    assert!(g.start(d));
    g
}

fn snake_of_length(n: usize) -> Snake {
    let mut s = Snake::create();
    for _ in 1..n {
        s.new_tail();
    }
    s
}

#[test]
fn start_places_snake_and_one_normal_food() {
    let mut g = Game::new();
    assert_eq!(g.state, GameState::StartMenu);
    assert!(g.start(GameDifficulty::Hard));
    assert_eq!(g.state, GameState::InGame);
    assert_eq!(g.config.current_difficulty, GameDifficulty::Hard);
    assert_eq!(g.config.tick_timer.duration_ms, 250);
    let s = g.snake.as_ref().unwrap();
    assert_eq!(s.parts, vec![c(6, 6)]);
    assert_eq!(g.foods.len(), 1);
    assert_eq!(g.foods[0].powerup, Powerup::Normal);
    assert_ne!(g.foods[0].cell, c(6, 6));
    assert_eq!(g.score, Score(0));
    assert!(!g.start(GameDifficulty::Easy));
}

#[test]
fn tick_without_food_keeps_length() {
    let mut g = started(GameDifficulty::Medium);
    g.snake = Some(snake_of_length(3));
    g.foods = vec![Food::new(0, 0, Powerup::Normal)];
    let out = g.tick();
    assert!(out.eaten.is_empty());
    assert_eq!(out.spawn, None);
    assert_eq!(g.snake.as_ref().unwrap().len(), 3);
    assert_eq!(g.snake.as_ref().unwrap().head_cell(), c(6, 5));
    assert_eq!(g.foods.len(), 1);
}

#[test]
fn eating_normal_food_grows_and_asks_for_one_food() {
    let mut g = started(GameDifficulty::Medium);
    g.snake = Some(snake_of_length(2));
    g.foods = vec![Food::new(6, 5, Powerup::Normal)];
    let out = g.tick();
    assert_eq!(out.eaten, vec![Food::new(6, 5, Powerup::Normal)]);
    assert_eq!(g.snake.as_ref().unwrap().len(), 3);
    assert_eq!(g.score, Score(1));
    assert!(g.foods.is_empty());
    assert_eq!(out.spawn, Some(SpawnRequest { powerup: None, amount: 1 }));
}

#[test]
fn eating_while_other_food_remains_spawns_nothing() {
    let mut g = started(GameDifficulty::Medium);
    g.foods = vec![Food::new(6, 5, Powerup::Normal), Food::new(1, 1, Powerup::Normal)];
    let out = g.tick();
    assert_eq!(out.eaten.len(), 1);
    assert_eq!(out.spawn, None);
    assert_eq!(g.foods, vec![Food::new(1, 1, Powerup::Normal)]);
}

#[test]
fn shorten_food_on_length_four_leaves_three() {
    let mut g = started(GameDifficulty::Medium);
    g.snake = Some(snake_of_length(4));
    g.foods = vec![Food::new(6, 5, Powerup::Shorten), Food::new(0, 0, Powerup::Normal)];
    let out = g.tick();
    assert_eq!(out.eaten.len(), 1);
    assert!(!out.self_collision);
    assert_eq!(g.snake.as_ref().unwrap().len(), 3);
    assert_eq!(g.score, Score(1));
}

#[test]
fn feast_spawns_two_foods_in_the_same_frame() {
    let mut g = started(GameDifficulty::Medium);
    g.foods = vec![Food::new(6, 5, Powerup::Feast)];
    let out = g.frame(500, &vec![], false).unwrap();
    assert_eq!(out.eaten, vec![Food::new(6, 5, Powerup::Feast)]);
    assert_eq!(out.spawn, Some(SpawnRequest { powerup: None, amount: 2 }));
    assert_eq!(g.foods.len(), 2);
    let s = g.snake.as_ref().unwrap();
    for f in &g.foods {
        assert!(!s.parts.contains(&f.cell));
    }
    assert_ne!(g.foods[0].cell, g.foods[1].cell);
}

#[test]
fn feast_with_other_food_left_still_spawns_two() {
    let mut g = started(GameDifficulty::Medium);
    g.foods = vec![Food::new(6, 5, Powerup::Feast), Food::new(2, 2, Powerup::Normal)];
    let out = g.tick();
    assert_eq!(out.spawn, Some(SpawnRequest { powerup: None, amount: 2 }));
    assert!(g.spawn_food(out.spawn.unwrap()));
    assert_eq!(g.foods.len(), 3);
    assert_eq!(g.foods[0], Food::new(2, 2, Powerup::Normal));
    assert!(g.foods[1].cell != c(2, 2) && g.foods[2].cell != c(2, 2));
}

#[test]
fn slowdown_doubles_period_then_reverts() {
    let mut g = started(GameDifficulty::Medium);
    g.foods = vec![Food::new(6, 5, Powerup::Slowdown), Food::new(0, 0, Powerup::Normal)];
    g.tick();
    assert_eq!(g.config.tick_timer.duration_ms, 1000);
    assert_eq!(g.slowdown_timer.duration_ms, 20000);
    g.revert_slowdown_on_timer(19999);
    assert_eq!(g.config.tick_timer.duration_ms, 1000);
    g.revert_slowdown_on_timer(1);
    assert_eq!(g.config.tick_timer.duration_ms, 500);
    g.revert_slowdown_on_timer(50000);
    assert_eq!(g.config.tick_timer.duration_ms, 500);
}

#[test]
fn self_collision_ends_game_and_clears_field() {
    let mut g = started(GameDifficulty::Medium);
    g.score = Score(7);
    g.snake = Some(Snake {
        parts: vec![c(6, 6), c(7, 6), c(7, 5), c(6, 5), c(5, 5)],
        head: Head::new(Direction::Up),
    });
    g.foods = vec![Food::new(0, 0, Powerup::Normal)];
    let out = g.tick();
    assert!(out.self_collision);
    assert_eq!(g.state, GameState::FinishMenu);
    assert!(g.snake.is_none());
    assert!(g.foods.is_empty());
    assert_eq!(g.score, Score(7));
    assert!(g.acknowledge());
    assert_eq!(g.state, GameState::StartMenu);
    assert_eq!(g.score, Score(0));
    assert!(!g.acknowledge());
}

#[test]
fn two_segment_snake_never_collides() {
    let mut g = started(GameDifficulty::Medium);
    g.snake = Some(Snake { parts: vec![c(6, 6), c(6, 5)], head: Head::new(Direction::Up) });
    g.foods = vec![Food::new(0, 0, Powerup::Normal)];
    let out = g.tick();
    assert!(!out.self_collision);
    assert_eq!(g.state, GameState::InGame);
}

#[test]
fn frames_tick_on_timer_and_pause_stops_time() {
    let mut g = started(GameDifficulty::Medium);
    g.foods = vec![Food::new(0, 0, Powerup::Normal)];
    assert!(g.frame(300, &vec![Direction::Left], false).is_none());
    assert_eq!(g.snake.as_ref().unwrap().head_cell(), c(6, 6));
    let out = g.frame(200, &vec![], false).unwrap();
    assert_eq!(out.direction, Direction::Left);
    assert_eq!(g.snake.as_ref().unwrap().head_cell(), c(5, 6));
    assert!(g.frame(1000, &vec![Direction::Up], true).is_none());
    assert!(g.paused);
    assert_eq!(g.snake.as_ref().unwrap().head_cell(), c(5, 6));
    assert!(g.snake.as_ref().unwrap().head.planned_direction.is_empty());
    assert!(g.frame(0, &vec![], true).is_none());
    assert!(!g.paused);
    let out = g.frame(500, &vec![Direction::Right], false).unwrap();
    assert_eq!(out.direction, Direction::Left);
}

#[test]
fn frames_outside_a_game_do_nothing() {
    let mut g = Game::new();
    assert!(g.frame(10_000, &vec![Direction::Up], true).is_none());
    assert!(!g.paused);
    assert_eq!(g.state, GameState::StartMenu);
}

#[test]
fn ui_follows_state() {
    let ui = SnakeUiPlugins::build(GameState::InGame, true);
    assert!(ui.score && ui.pause && !ui.start_menu && !ui.finish_menu);
    let ui = SnakeUiPlugins::build(GameState::StartMenu, true);
    assert!(ui.start_menu && !ui.pause && !ui.score);
    let ui = SnakeUiPlugins::build(GameState::FinishMenu, false);
    assert!(ui.finish_menu && !ui.score);
}
