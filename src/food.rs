use vstd::prelude::*;
use crate::grid::Cell;
use crate::powerup::Powerup;
use crate::random::random_below;

verus! {

/// A piece of food on the field.
#[derive(Clone, Copy, Debug, PartialEq, Eq, Structural)]
pub struct Food {
    pub cell: Cell,
    pub powerup: Powerup,
}

impl Food {
    /// Food of kind `powerup` in column `grid_x`, row `grid_y`.
    pub fn new(grid_x: u32, grid_y: u32, powerup: Powerup) -> (f: Food)
        ensures
            f.cell == (Cell { x: grid_x, y: grid_y }),
            f.powerup == powerup,
    {
        Food { cell: Cell { x: grid_x, y: grid_y }, powerup }
    }
}

/// The cells of `field` that `occupied` does not hold, in the order of `field`.
pub open spec fn free_of(field: Seq<Cell>, occupied: Seq<Cell>) -> Seq<Cell>
    decreases field.len(),
{
    if field.len() == 0 {
        Seq::<Cell>::empty()
    } else {
        let rest = free_of(field.drop_last(), occupied);
        if occupied.contains(field.last()) {
            rest
        } else {
            rest.push(field.last())
        }
    }
}

/// Every free cell is a cell of the field that is not occupied, and a field
/// without repeated cells leaves free cells without repeats.
pub proof fn lemma_free_of(field: Seq<Cell>, occupied: Seq<Cell>)
    ensures
        forall|k: int|
            0 <= k < free_of(field, occupied).len() ==> field.contains(
                #[trigger] free_of(field, occupied)[k],
            ) && !occupied.contains(free_of(field, occupied)[k]),
        field.no_duplicates() ==> free_of(field, occupied).no_duplicates(),
    decreases field.len(),
{
    if field.len() > 0 {
        let init = field.drop_last();
        lemma_free_of(init, occupied);
        let rest = free_of(init, occupied);
        assert forall|k: int| 0 <= k < rest.len() implies field.contains(#[trigger] rest[k]) by {
            let j = choose|j: int| 0 <= j < init.len() && init[j] == rest[k];
            assert(field[j] == rest[k]);
        }
        assert(field[field.len() - 1] == field.last());
        if field.no_duplicates() {
            assert(init.no_duplicates()) by {
                assert forall|a: int, b: int|
                    0 <= a < init.len() && 0 <= b < init.len() && a != b implies init[a]
                    != init[b] by {
                    assert(init[a] == field[a] && init[b] == field[b]);
                }
            }
            assert(!rest.contains(field.last())) by {
                if rest.contains(field.last()) {
                    let k = choose|k: int| 0 <= k < rest.len() && rest[k] == field.last();
                    let j = choose|j: int| 0 <= j < init.len() && init[j] == rest[k];
                    assert(field[j] == field[field.len() - 1]);
                }
            }
        }
    }
}

/// A cell of the field that is not occupied is free.
pub proof fn lemma_free_of_keeps(field: Seq<Cell>, occupied: Seq<Cell>, c: Cell)
    requires
        field.contains(c),
        !occupied.contains(c),
    ensures
        free_of(field, occupied).contains(c),
    decreases field.len(),
{
    let init = field.drop_last();
    if field.last() == c {
        assert(free_of(field, occupied).last() == c);
    } else {
        let j = choose|j: int| 0 <= j < field.len() && field[j] == c;
        assert(init[j] == c);
        lemma_free_of_keeps(init, occupied, c);
        let k = choose|k: int|
            0 <= k < free_of(init, occupied).len() && free_of(init, occupied)[k] == c;
        if !occupied.contains(field.last()) {
            assert(free_of(field, occupied)[k] == c);
        }
    }
}

/// Whether `cells` holds `c`.
pub fn holds(cells: &Vec<Cell>, c: Cell) -> (r: bool)
    ensures
        r == cells@.contains(c),
{
    let mut i: usize = 0;
    while i < cells.len()
        invariant
            i <= cells@.len(),
            forall|k: int| 0 <= k < i ==> #[trigger] cells@[k] != c,
        decreases cells@.len() - i,
    {
        if cells[i] == c {
            return true;
        }
        i = i + 1;
    }
    false
}

/// The cells of `field` that `occupied` does not hold, in the order of `field`.
pub fn free_cells(field: &Vec<Cell>, occupied: &Vec<Cell>) -> (r: Vec<Cell>)
    ensures
        r@ == free_of(field@, occupied@),
{
    let mut r: Vec<Cell> = Vec::new();
    let mut i: usize = 0;
    while i < field.len()
        invariant
            i <= field@.len(),
            r@ == free_of(field@.subrange(0, i as int), occupied@),
        decreases field@.len() - i,
    {
        let c = field[i];
        assert(field@.subrange(0, i + 1).drop_last() =~= field@.subrange(0, i as int));
        if !holds(occupied, c) {
            r.push(c);
        }
        i = i + 1;
    }
    assert(field@.subrange(0, field@.len() as int) =~= field@);
    r
}

/// The cells still free and the cells chosen after the first `i` picks: each
/// pick is an index into the cells still free, and the cell it names leaves them.
pub open spec fn pick_state(free: Seq<Cell>, picks: Seq<usize>, i: int) -> (Seq<Cell>, Seq<Cell>)
    decreases i,
{
    if i <= 0 {
        (free, Seq::<Cell>::empty())
    } else {
        let prev = pick_state(free, picks, i - 1);
        let p = picks[i - 1] as int;
        (prev.0.remove(p), prev.1.push(prev.0[p]))
    }
}

/// The cells that the picks choose, in order.
pub open spec fn chosen_cells(free: Seq<Cell>, picks: Seq<usize>) -> Seq<Cell> {
    pick_state(free, picks, picks.len() as int).1
}

/// Each pick names one of the cells still free when it is taken.
pub open spec fn picks_fit(n: int, picks: Seq<usize>) -> bool {
    forall|i: int| 0 <= i < picks.len() ==> #[trigger] picks[i] < n - i
}

/// Places one food for each pick, on the cell the pick chooses among the
/// cells still free, of the kind that `kinds` gives at the same position.
pub fn place_foods(free: Vec<Cell>, picks: &Vec<usize>, kinds: &Vec<Powerup>) -> (r: Vec<Food>)
    requires
        picks@.len() == kinds@.len(),
        picks_fit(free@.len() as int, picks@),
    ensures
        r@.len() == picks@.len(),
        forall|i: int|
            0 <= i < r@.len() ==> (#[trigger] r@[i]).cell == chosen_cells(free@, picks@)[i]
                && r@[i].powerup == kinds@[i],
        forall|i: int| 0 <= i < r@.len() ==> free@.contains((#[trigger] r@[i]).cell),
        free@.no_duplicates() ==> forall|i: int, j: int|
            0 <= i < r@.len() && 0 <= j < r@.len() && i != j ==> (#[trigger] r@[i]).cell
                != (#[trigger] r@[j]).cell,
{
    let ghost orig = free@;
    let mut taken_pos = free;
    let mut foods: Vec<Food> = Vec::new();
    let mut i: usize = 0;
    while i < picks.len()
        invariant
            picks@.len() == kinds@.len(),
            picks_fit(orig.len() as int, picks@),
            i <= picks@.len(),
            taken_pos@.len() == orig.len() - i,
            (taken_pos@, foods@.map_values(|f: Food| f.cell)) == pick_state(orig, picks@, i as int),
            foods@.len() == i,
            forall|k: int| 0 <= k < i ==> (#[trigger] foods@[k]).powerup == kinds@[k],
            forall|k: int| 0 <= k < taken_pos@.len() ==> orig.contains(#[trigger] taken_pos@[k]),
            forall|k: int| 0 <= k < i ==> orig.contains((#[trigger] foods@[k]).cell),
            orig.no_duplicates() ==> taken_pos@.no_duplicates(),
            orig.no_duplicates() ==> forall|a: int, b: int|
                0 <= a < i && 0 <= b < i && a != b ==> (#[trigger] foods@[a]).cell
                    != (#[trigger] foods@[b]).cell,
            orig.no_duplicates() ==> forall|a: int, b: int|
                0 <= a < i && 0 <= b < taken_pos@.len() ==> (#[trigger] foods@[a]).cell
                    != (#[trigger] taken_pos@[b]),
        decreases picks@.len() - i,
    {
        let p = picks[i];
        assert(p < orig.len() - i);
        let ghost before = taken_pos@;
        let c = taken_pos.remove(p);
        foods.push(Food { cell: c, powerup: kinds[i] });
        proof {
            assert(before[p as int] == c);
            assert forall|k: int| 0 <= k < taken_pos@.len() implies orig.contains(
                #[trigger] taken_pos@[k],
            ) by {
                if k < p {
                    assert(taken_pos@[k] == before[k]);
                } else {
                    assert(taken_pos@[k] == before[k + 1]);
                }
            }
            assert(foods@.map_values(|f: Food| f.cell) =~= pick_state(orig, picks@, i as int).1.push(
                c,
            ));
            if orig.no_duplicates() {
                assert forall|a: int, b: int|
                    0 <= a < taken_pos@.len() && 0 <= b < taken_pos@.len() && a != b implies
                    taken_pos@[a] != taken_pos@[b] by {
                    let a2 = if a < p { a } else { a + 1 };
                    let b2 = if b < p { b } else { b + 1 };
                    assert(taken_pos@[a] == before[a2]);
                    assert(taken_pos@[b] == before[b2]);
                }
                assert forall|a: int, b: int|
                    0 <= a < i + 1 && 0 <= b < taken_pos@.len() implies (#[trigger] foods@[a]).cell
                    != (#[trigger] taken_pos@[b]) by {
                    let b2 = if b < p { b } else { b + 1 };
                    assert(taken_pos@[b] == before[b2]);
                    if a == i {
                        assert(b2 != p);
                    }
                }
                assert forall|a: int, b: int|
                    0 <= a < i + 1 && 0 <= b < i + 1 && a != b implies (#[trigger] foods@[a]).cell
                    != (#[trigger] foods@[b]).cell by {
                    if a == i {
                        assert(foods@[b].cell != before[p as int]);
                    } else if b == i {
                        assert(foods@[a].cell != before[p as int]);
                    }
                }
            }
        }
        i = i + 1;
    }
    foods
}

/// Places `amount` foods (one when not given) at random on distinct cells of
/// `field` that `occupied` does not hold, each of the kind `powerup` or, when
/// none is given, of a kind rolled for it. There is no placement when fewer
/// cells are free than foods asked for.
pub fn random_pos_food_bundle(
    field: &Vec<Cell>,
    occupied: &Vec<Cell>,
    powerup: Option<Powerup>,
    amount: Option<u32>,
) -> (r: Option<Vec<Food>>)
    ensures
        r is Some <==> free_of(field@, occupied@).len() >= (match amount {
            Some(n) => n,
            None => 1,
        }),
        r matches Some(foods) ==> {
            &&& foods@.len() == (match amount {
                Some(n) => n,
                None => 1,
            })
            &&& forall|i: int|
                0 <= i < foods@.len() ==> field@.contains((#[trigger] foods@[i]).cell)
                    && !occupied@.contains(foods@[i].cell)
            &&& field@.no_duplicates() ==> forall|i: int, j: int|
                0 <= i < foods@.len() && 0 <= j < foods@.len() && i != j
                    ==> (#[trigger] foods@[i]).cell != (#[trigger] foods@[j]).cell
            &&& powerup matches Some(p) ==> forall|i: int|
                0 <= i < foods@.len() ==> (#[trigger] foods@[i]).powerup == p
        },
{
    let free = free_cells(field, occupied);
    proof {
        lemma_free_of(field@, occupied@);
    }
    let n: u32 = match amount {
        Some(n) => n,
        None => 1,
    };
    if free.len() < n as usize {
        return None;
    }
    let mut picks: Vec<usize> = Vec::new();
    let mut kinds: Vec<Powerup> = Vec::new();
    let mut i: u32 = 0;
    while i < n
        invariant
            n as int <= free@.len(),
            i <= n,
            picks@.len() == i,
            kinds@.len() == i,
            picks_fit(free@.len() as int, picks@),
            powerup matches Some(p) ==> forall|k: int| 0 <= k < i ==> #[trigger] kinds@[k] == p,
        decreases n - i,
    {
        let pick = random_below(free.len() - i as usize);
        picks.push(pick);
        let kind = match powerup {
            Some(p) => p,
            None => Powerup::get_random_powerup(),
        };
        kinds.push(kind);
        i = i + 1;
    }
    let foods = place_foods(free, &picks, &kinds);
    Some(foods)
}

} // verus!
