use vstd::prelude::*;
use crate::direction::Direction;

verus! {

/// Number of cells along each side of the square playing field.
pub const GRID_SIZE: u32 = 13;

/// Index of the middle row and column, where a new snake starts.
pub const GRID_CENTER: u32 = GRID_SIZE / 2;

/// Side of one cell on screen, in pixels.
pub const GRID_CELL: i64 = 60;

/// A cell of the playing field, addressed by column `x` and row `y`; row 0 is the top.
#[derive(Clone, Copy, Debug, PartialEq, Eq, Structural)]
pub struct Cell {
    pub x: u32,
    pub y: u32,
}

/// The cell lies on the playing field.
pub open spec fn in_grid(c: Cell) -> bool {
    c.x < GRID_SIZE && c.y < GRID_SIZE
}

/// The cell one step from `c` in direction `d`; leaving the field on one edge
/// re-enters it on the opposite edge.
pub open spec fn step_cell(c: Cell, d: Direction) -> Cell {
    match d {
        Direction::Up => if c.y == 0 {
            Cell { x: c.x, y: (GRID_SIZE - 1) as u32 }
        } else {
            Cell { x: c.x, y: (c.y - 1) as u32 }
        },
        Direction::Down => if c.y == GRID_SIZE - 1 {
            Cell { x: c.x, y: 0 }
        } else {
            Cell { x: c.x, y: (c.y + 1) as u32 }
        },
        Direction::Left => if c.x == 0 {
            Cell { x: (GRID_SIZE - 1) as u32, y: c.y }
        } else {
            Cell { x: (c.x - 1) as u32, y: c.y }
        },
        Direction::Right => if c.x == GRID_SIZE - 1 {
            Cell { x: 0, y: c.y }
        } else {
            Cell { x: (c.x + 1) as u32, y: c.y }
        },
    }
}

/// The field is a torus: a step off any edge lands on the opposite edge,
/// in the same row or column, and a step never leaves the field.
pub proof fn lemma_torus_wrap(c: Cell, d: Direction)
    requires
        in_grid(c),
    ensures
        in_grid(step_cell(c, d)),
        c.y == 0 ==> step_cell(c, Direction::Up) == (Cell { x: c.x, y: (GRID_SIZE - 1) as u32 }),
        c.y == GRID_SIZE - 1 ==> step_cell(c, Direction::Down) == (Cell { x: c.x, y: 0 }),
        c.x == 0 ==> step_cell(c, Direction::Left) == (Cell { x: (GRID_SIZE - 1) as u32, y: c.y }),
        c.x == GRID_SIZE - 1 ==> step_cell(c, Direction::Right) == (Cell { x: 0, y: c.y }),
{
}

/// Moves `c` one step in direction `d`, wrapping around the edges.
pub fn step(c: Cell, d: Direction) -> (r: Cell)
    requires
        in_grid(c),
    ensures
        r == step_cell(c, d),
        in_grid(r),
{
    match d {
        Direction::Up => if c.y == 0 {
            Cell { x: c.x, y: GRID_SIZE - 1 }
        } else {
            Cell { x: c.x, y: c.y - 1 }
        },
        Direction::Down => if c.y == GRID_SIZE - 1 {
            Cell { x: c.x, y: 0 }
        } else {
            Cell { x: c.x, y: c.y + 1 }
        },
        Direction::Left => if c.x == 0 {
            Cell { x: GRID_SIZE - 1, y: c.y }
        } else {
            Cell { x: c.x - 1, y: c.y }
        },
        Direction::Right => if c.x == GRID_SIZE - 1 {
            Cell { x: 0, y: c.y }
        } else {
            Cell { x: c.x + 1, y: c.y }
        },
    }
}

/// The cell with index `i` when the field is read row by row.
pub open spec fn field_cell(i: int) -> Cell {
    Cell { x: (i % GRID_SIZE as int) as u32, y: (i / GRID_SIZE as int) as u32 }
}

/// Every cell of the field, row by row from the top, each row from the left.
pub fn all_cells() -> (field: Vec<Cell>)
    ensures
        field@.len() == GRID_SIZE * GRID_SIZE,
        forall|i: int| 0 <= i < field@.len() ==> #[trigger] field@[i] == field_cell(i),
{
    let n: u32 = GRID_SIZE * GRID_SIZE;
    let mut field: Vec<Cell> = Vec::with_capacity(n as usize);
    let mut i: u32 = 0;
    while i < n
        invariant
            n == GRID_SIZE * GRID_SIZE,
            i <= n,
            field@.len() == i,
            forall|j: int| 0 <= j < field@.len() ==> #[trigger] field@[j] == field_cell(j),
        decreases n - i,
    {
        field.push(Cell { x: i % GRID_SIZE, y: i / GRID_SIZE });
        i = i + 1;
    }
    field
}

/// The cells that `field_cell` gives for indices on the field lie on it, and differ.
pub proof fn lemma_field_cells(i: int, j: int)
    requires
        0 <= i < GRID_SIZE * GRID_SIZE,
        0 <= j < GRID_SIZE * GRID_SIZE,
    ensures
        in_grid(field_cell(i)),
        i != j ==> field_cell(i) != field_cell(j),
{
    assert(i == (i / 13) * 13 + i % 13) by (nonlinear_arith);
    assert(j == (j / 13) * 13 + j % 13) by (nonlinear_arith);
    assert(i / 13 < 13) by (nonlinear_arith)
        requires 0 <= i < 169;
}

/// Position on screen of the centre of a cell, in pixels, with the origin in the
/// middle of the window and `y` growing upwards.
#[derive(Clone, Copy, Debug, PartialEq, Eq, Structural)]
pub struct ScreenPos {
    pub x: i64,
    pub y: i64,
}

/// Left edge of the window, in pixels.
pub open spec fn left_border() -> int {
    -(GRID_CELL * GRID_SIZE) / 2
}

/// Top edge of the window, in pixels.
pub open spec fn top_border() -> int {
    (GRID_CELL * GRID_SIZE) / 2
}

/// Maps a cell to the centre of its square on screen.
pub fn grid_to_screen(grid_x: u32, grid_y: u32) -> (r: ScreenPos)
    ensures
        r.x == left_border() + GRID_CELL / 2 + GRID_CELL * grid_x,
        r.y == top_border() - GRID_CELL / 2 - GRID_CELL * grid_y,
{
    let window: i64 = GRID_CELL * (GRID_SIZE as i64);
    let left: i64 = -window / 2;
    let top: i64 = window / 2;
    ScreenPos {
        x: left + GRID_CELL / 2 + GRID_CELL * (grid_x as i64),
        y: top - GRID_CELL / 2 - GRID_CELL * (grid_y as i64),
    }
}

} // verus!
