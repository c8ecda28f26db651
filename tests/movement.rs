use snake::direction::Direction;
use snake::grid::{all_cells, grid_to_screen, step, Cell, GRID_CENTER, GRID_SIZE};
use snake::input::Head;
use snake::snake::Snake;

fn c(x: u32, y: u32) -> Cell {
    Cell { x, y }
}

#[test]
fn opposite_is_involutive() {
    for d in [Direction::Up, Direction::Down, Direction::Left, Direction::Right] {
        assert_eq!(d.opposite().opposite(), d);
        assert_ne!(d.opposite(), d);
    }
    assert_eq!(Direction::Up.opposite(), Direction::Down);
    assert_eq!(Direction::Left.opposite(), Direction::Right);
}

#[test]
fn head_wraps_around_every_edge() {
    assert_eq!(step(c(4, 0), Direction::Up), c(4, GRID_SIZE - 1));
    assert_eq!(step(c(4, GRID_SIZE - 1), Direction::Down), c(4, 0));
    assert_eq!(step(c(0, 7), Direction::Left), c(GRID_SIZE - 1, 7));
    assert_eq!(step(c(GRID_SIZE - 1, 7), Direction::Right), c(0, 7));
    assert_eq!(step(c(4, 5), Direction::Up), c(4, 4));
    assert_eq!(step(c(4, 5), Direction::Down), c(4, 6));
    assert_eq!(step(c(4, 5), Direction::Left), c(3, 5));
    assert_eq!(step(c(4, 5), Direction::Right), c(5, 5));
}

#[test]
fn snake_from_center_wraps_after_seven_ticks() {
    assert_eq!(GRID_SIZE, 13);
    let mut s = Snake::create();
    assert_eq!(s.head_cell(), c(6, 6));
    assert_eq!(s.head.direction, Direction::Up);
    s.advance();
    assert_eq!(s.head_cell(), c(6, 5));
    for _ in 1..6 {
        s.advance();
    }
    assert_eq!(s.head_cell(), c(6, 0));
    s.advance();
    assert_eq!(s.head_cell(), c(6, 12));
    assert_eq!(s.len(), 1);
}

#[test]
fn tail_follows_previous_positions() {
    let mut s = Snake { parts: vec![c(3, 3), c(3, 4), c(3, 5)], head: Head::new(Direction::Up) };
    s.advance();
    assert_eq!(s.parts, vec![c(3, 2), c(3, 3), c(3, 4)]);
    s.head.push(Direction::Left);
    s.advance();
    assert_eq!(s.parts, vec![c(2, 2), c(3, 2), c(3, 3)]);
}

#[test]
fn grown_tail_stays_put_for_one_step() {
    let mut s = Snake { parts: vec![c(3, 3), c(3, 4)], head: Head::new(Direction::Up) };
    s.new_tail();
    assert_eq!(s.parts, vec![c(3, 3), c(3, 4), c(3, 4)]);
    s.advance();
    assert_eq!(s.parts, vec![c(3, 2), c(3, 3), c(3, 4)]);
}

#[test]
fn remove_tails_never_removes_head() {
    let mut s = Snake { parts: vec![c(1, 1), c(1, 2), c(1, 3), c(1, 4)], head: Head::new(Direction::Up) };
    s.remove_tails(1);
    assert_eq!(s.parts, vec![c(1, 1), c(1, 2), c(1, 3)]);
    s.remove_tails(10);
    assert_eq!(s.parts, vec![c(1, 1)]);
    s.remove_tails(0);
    assert_eq!(s.len(), 1);
}

#[test]
fn push_rejects_reversal_of_current_direction() {
    let mut h = Head::new(Direction::Up);
    h.push(Direction::Down);
    assert!(h.planned_direction.is_empty());
    h.push(Direction::Left);
    h.push(Direction::Right);
    assert_eq!(h.planned_direction.iter().copied().collect::<Vec<_>>(), vec![Direction::Left]);
    h.push(Direction::Left);
    assert_eq!(h.planned_direction.len(), 1);
    h.push(Direction::Down);
    assert_eq!(
        h.planned_direction.iter().copied().collect::<Vec<_>>(),
        vec![Direction::Left, Direction::Down]
    );
}

#[test]
fn turn_drops_queue_on_reversal() {
    let mut h = Head::new(Direction::Up);
    h.planned_direction.push_back(Direction::Down);
    h.planned_direction.push_back(Direction::Left);
    assert_eq!(h.turn(), Direction::Up);
    assert!(h.planned_direction.is_empty());
    h.push(Direction::Right);
    assert_eq!(h.turn(), Direction::Right);
    assert_eq!(h.turn(), Direction::Right);
    assert_eq!(h.pop_for_tick(), None);
}

#[test]
fn self_collision_needs_more_than_one_tail_segment() {
    let two = Snake { parts: vec![c(2, 2), c(2, 2)], head: Head::new(Direction::Up) };
    assert!(!two.self_collision());
    let three = Snake { parts: vec![c(2, 2), c(2, 3), c(2, 2)], head: Head::new(Direction::Up) };
    assert!(three.self_collision());
    let apart = Snake { parts: vec![c(2, 2), c(2, 3), c(2, 4)], head: Head::new(Direction::Up) };
    assert!(!apart.self_collision());
}

#[test]
fn field_lists_every_cell_row_by_row() {
    let field = all_cells();
    assert_eq!(field.len(), 169);
    assert_eq!(field[0], c(0, 0));
    assert_eq!(field[14], c(1, 1));
    assert_eq!(field[168], c(12, 12));
    assert_eq!(GRID_CENTER, 6);
}

#[test]
fn grid_to_screen_centres_cells() {
    let p = grid_to_screen(0, 0);
    assert_eq!((p.x, p.y), (-360, 360));
    let q = grid_to_screen(12, 12);
    assert_eq!((q.x, q.y), (360, -360));
    let m = grid_to_screen(6, 6);
    assert_eq!((m.x, m.y), (0, 0));
}
