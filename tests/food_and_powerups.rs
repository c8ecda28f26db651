use snake::config::{GameConfiguration, GameDifficulty, Timer};
use snake::food::{free_cells, place_foods, random_pos_food_bundle, Food};
use snake::grid::{all_cells, Cell};
use snake::powerup::Powerup;

fn c(x: u32, y: u32) -> Cell {
    Cell { x, y }
}

#[test]
fn rolls_select_powerups_by_cumulative_thresholds() {
    assert_eq!(Powerup::chance_to_powerup(0), Powerup::Feast);
    assert_eq!(Powerup::chance_to_powerup(4), Powerup::Feast);
    assert_eq!(Powerup::chance_to_powerup(5), Powerup::Shorten);
    assert_eq!(Powerup::chance_to_powerup(14), Powerup::Shorten);
    assert_eq!(Powerup::chance_to_powerup(15), Powerup::Slowdown);
    assert_eq!(Powerup::chance_to_powerup(19), Powerup::Slowdown);
    assert_eq!(Powerup::chance_to_powerup(20), Powerup::Normal);
    assert_eq!(Powerup::chance_to_powerup(99), Powerup::Normal);
}

#[test]
fn chances_add_up_to_one_hundred() {
    let total: u32 = [Powerup::Normal, Powerup::Slowdown, Powerup::Shorten, Powerup::Feast]
        .iter()
        .map(|p| p.get_chance())
        .sum();
    assert_eq!(total, 100);
    assert_eq!(Powerup::Normal.get_chance(), 80);
    assert_eq!(Powerup::Shorten.get_chance(), 10);
}

#[test]
fn powerup_strengths_and_speeds() {
    assert_eq!(Powerup::Feast.power(), 2);
    assert_eq!(Powerup::Shorten.power(), 1);
    assert_eq!(Powerup::Slowdown.power(), 20);
    assert_eq!(Powerup::Normal.power(), 0);
    assert_eq!(Powerup::Slowdown.speed(), 2);
    assert_eq!(Powerup::Normal.speed(), 1);
    assert_eq!(Powerup::Normal.get_color().r, 90);
    assert_eq!(Powerup::Slowdown.get_color().b, 90);
}

#[test]
fn random_powerups_are_mostly_normal() {
    let mut normal = 0;
    for _ in 0..1000 {
        if Powerup::get_random_powerup() == Powerup::Normal {
            normal += 1;
        }
    }
    assert!(normal > 0);
    assert!(normal < 1000);
}

#[test]
fn free_cells_skip_occupied_in_field_order() {
    let field = vec![c(0, 0), c(1, 0), c(2, 0), c(0, 1)];
    let occupied = vec![c(1, 0), c(5, 5), c(0, 1)];
    assert_eq!(free_cells(&field, &occupied), vec![c(0, 0), c(2, 0)]);
}

#[test]
fn picks_remove_chosen_cells() {
    let free = vec![c(0, 0), c(1, 0), c(2, 0)];
    let foods = place_foods(free, &vec![1, 1], &vec![Powerup::Feast, Powerup::Normal]);
    assert_eq!(foods, vec![Food::new(1, 0, Powerup::Feast), Food::new(2, 0, Powerup::Normal)]);
}

#[test]
fn spawned_food_avoids_occupied_cells() {
    let field = all_cells();
    let occupied: Vec<Cell> = field.iter().copied().filter(|&x| x != c(3, 4) && x != c(9, 1)).collect();
    for _ in 0..20 {
        let foods = random_pos_food_bundle(&field, &occupied, Some(Powerup::Shorten), Some(2)).unwrap();
        assert_eq!(foods.len(), 2);
        assert_ne!(foods[0].cell, foods[1].cell);
        for f in &foods {
            assert!(f.cell == c(3, 4) || f.cell == c(9, 1));
            assert_eq!(f.powerup, Powerup::Shorten);
        }
    }
    assert!(random_pos_food_bundle(&field, &occupied, None, Some(3)).is_none());
    let one = random_pos_food_bundle(&field, &vec![c(6, 6)], None, None).unwrap();
    assert_eq!(one.len(), 1);
    assert_ne!(one[0].cell, c(6, 6));
}

#[test]
fn no_food_when_field_is_full() {
    let field = all_cells();
    assert!(random_pos_food_bundle(&field, &field, Some(Powerup::Normal), None).is_none());
    let none = random_pos_food_bundle(&field, &field, None, Some(0)).unwrap();
    assert!(none.is_empty());
}

#[test]
fn difficulty_tick_rates() {
    assert_eq!(GameDifficulty::Easy.get_tick_rate(), 625);
    assert_eq!(GameDifficulty::Medium.get_tick_rate(), 500);
    assert_eq!(GameDifficulty::Hard.get_tick_rate(), 250);
    assert_eq!(GameDifficulty::Extreme.get_tick_rate(), 125);
    assert_eq!(GameDifficulty::default(), GameDifficulty::Medium);
}

#[test]
fn restoring_saved_difficulty_restores_tick_period() {
    for d in [GameDifficulty::Easy, GameDifficulty::Medium, GameDifficulty::Hard, GameDifficulty::Extreme] {
        let mut config = GameConfiguration::default();
        config.set_difficulty_and_reset_timer(d);
        let before = config.tick_timer;
        config.set_game_speed(d.get_tick_rate() * 2);
        assert_eq!(config.tick_timer.duration_ms, d.get_tick_rate() * 2);
        let saved = config.current_difficulty;
        config.set_difficulty_and_reset_timer(saved);
        assert_eq!(config.tick_timer, before);
        assert_eq!(config.tick_timer.duration_ms, d.get_tick_rate());
    }
}

#[test]
fn new_configuration_keeps_its_difficulty() {
    let config = GameConfiguration::new(GameDifficulty::Hard);
    assert_eq!(config.current_difficulty, GameDifficulty::Hard);
    assert_eq!(config.tick_timer.duration_ms, 250);
    assert_eq!(config.field.len(), 169);
}

#[test]
fn repeating_timer_keeps_overshoot() {
    let mut t = Timer::from_millis(500, true);
    t.tick(300);
    assert!(!t.just_finished());
    assert_eq!(t.elapsed_ms, 300);
    t.tick(300);
    assert!(t.just_finished());
    assert_eq!(t.elapsed_ms, 100);
    t.tick(100);
    assert!(!t.just_finished());
}

#[test]
fn one_shot_timer_finishes_once() {
    let mut t = Timer::from_millis(1000, false);
    t.tick(1200);
    assert!(t.just_finished());
    assert_eq!(t.elapsed_ms, 1000);
    t.tick(5000);
    assert!(!t.just_finished());
    assert!(t.finished);
    t.restart(200);
    assert!(!t.finished);
    t.tick(200);
    assert!(t.just_finished());
}
