use vstd::prelude::*;
use crate::direction::Direction;
use crate::grid::{Cell, GRID_CENTER, in_grid, step, step_cell};
use crate::input::{Head, turned_direction, turned_queue};

verus! {

/// The snake: its cells from the head to the tip of the tail, and the head's
/// facing with the turns planned for it.
#[derive(Debug)]
pub struct Snake {
    pub parts: Vec<Cell>,
    pub head: Head,
}

/// The body after one step in direction `d`: the head moves to the next cell
/// and every other segment takes the place its predecessor held before the step.
pub open spec fn advanced(parts: Seq<Cell>, d: Direction) -> Seq<Cell> {
    seq![step_cell(parts[0], d)] + parts.subrange(0, parts.len() - 1)
}

/// The body with its last `n` segments removed, though never the head.
pub open spec fn shortened(parts: Seq<Cell>, n: int) -> Seq<Cell> {
    if parts.len() - n < 1 {
        parts.subrange(0, 1)
    } else {
        parts.subrange(0, parts.len() - n)
    }
}

/// The head shares its cell with a segment of the tail, and the tail has more
/// than one segment: a tail of one segment never counts, whatever it overlaps.
pub open spec fn bites_itself(parts: Seq<Cell>) -> bool {
    parts.len() > 2 && exists|i: int| 1 <= i < parts.len() && #[trigger] parts[i] == parts[0]
}

impl Snake {
    /// At least the head, and every segment on the field.
    pub open spec fn wf(&self) -> bool {
        &&& self.parts@.len() >= 1
        &&& forall|i: int| 0 <= i < self.parts@.len() ==> in_grid(#[trigger] self.parts@[i])
    }

    /// A snake of a head alone, in the middle of the field, facing up.
    pub fn create() -> (s: Snake)
        ensures
            s.wf(),
            s.parts@ == seq![Cell { x: GRID_CENTER, y: GRID_CENTER }],
            s.head.direction == Direction::Up,
            s.head.planned_direction@.len() == 0,
    {
        let mut parts: Vec<Cell> = Vec::new();
        parts.push(Cell { x: GRID_CENTER, y: GRID_CENTER });
        Snake { parts, head: Head::new(Direction::Up) }
    }

    /// The cell of the head.
    pub fn head_cell(&self) -> (c: Cell)
        requires
            self.wf(),
        ensures
            c == self.parts@[0],
    {
        self.parts[0]
    }

    /// Number of segments, the head included.
    pub fn len(&self) -> (n: usize)
        ensures
            n == self.parts@.len(),
    {
        self.parts.len()
    }

    /// Grows by one segment, placed where the tail ends now, so the tail
    /// stays put on the next step.
    pub fn new_tail(&mut self)
        requires
            old(self).wf(),
        ensures
            final(self).wf(),
            final(self).parts@ == old(self).parts@.push(old(self).parts@.last()),
            final(self).head == old(self).head,
    {
        let last = self.parts[self.parts.len() - 1];
        self.parts.push(last);
    }

    /// Removes up to `n` segments from the end of the tail, never the head.
    pub fn remove_tails(&mut self, n: u32)
        requires
            old(self).wf(),
        ensures
            final(self).wf(),
            final(self).parts@ == shortened(old(self).parts@, n as int),
            final(self).head == old(self).head,
    {
        let len = self.parts.len();
        let keep: usize = if len <= n as usize {
            1
        } else {
            len - n as usize
        };
        self.parts.truncate(keep);
    }

    /// Every segment behind the head takes the cell its predecessor held.
    pub fn move_tail(&mut self)
        requires
            old(self).wf(),
        ensures
            final(self).wf(),
            final(self).head == old(self).head,
            final(self).parts@ == seq![old(self).parts@[0]] + old(self).parts@.subrange(
                0,
                old(self).parts@.len() - 1,
            ),
    {
        let ghost before = self.parts@;
        let mut snapshot: Vec<Cell> = Vec::new();
        let len = self.parts.len();
        let mut i: usize = 0;
        while i < len
            invariant
                len == self.parts@.len(),
                self.parts@ == before,
                self.head == old(self).head,
                i <= len,
                snapshot@ == before.subrange(0, i as int),
            decreases len - i,
        {
            snapshot.push(self.parts[i]);
            i = i + 1;
        }
        let mut j: usize = 1;
        while j < len
            invariant
                len == before.len(),
                len >= 1,
                snapshot@ == before,
                self.parts@.len() == len,
                self.head == old(self).head,
                1 <= j <= len,
                self.parts@[0] == before[0],
                forall|k: int| 1 <= k < j ==> #[trigger] self.parts@[k] == before[k - 1],
                forall|k: int| j <= k < len ==> #[trigger] self.parts@[k] == before[k],
                forall|k: int| 0 <= k < len ==> in_grid(#[trigger] before[k]),
            decreases len - j,
        {
            let prev = snapshot[j - 1];
            self.parts.set(j, prev);
            j = j + 1;
        }
        assert(self.parts@ =~= seq![before[0]] + before.subrange(0, len - 1));
    }

    /// The head settles its facing and moves one cell that way.
    pub fn move_head(&mut self) -> (d: Direction)
        requires
            old(self).wf(),
        ensures
            final(self).wf(),
            d == final(self).head.direction,
            d == turned_direction(old(self).head.planned_direction@, old(self).head.direction),
            final(self).head.planned_direction@ == turned_queue(
                old(self).head.planned_direction@,
                old(self).head.direction,
            ),
            final(self).parts@ == old(self).parts@.update(0, step_cell(old(self).parts@[0], d)),
    {
        let d = self.head.turn();
        let next = step(self.parts[0], d);
        self.parts.set(0, next);
        d
    }

    /// One step of the whole body: the facing is settled, the tail follows
    /// and the head moves.
    pub fn advance(&mut self) -> (d: Direction)
        requires
            old(self).wf(),
        ensures
            final(self).wf(),
            d == final(self).head.direction,
            d == turned_direction(old(self).head.planned_direction@, old(self).head.direction),
            final(self).head.planned_direction@ == turned_queue(
                old(self).head.planned_direction@,
                old(self).head.direction,
            ),
            final(self).parts@ == advanced(old(self).parts@, d),
            final(self).parts@.len() == old(self).parts@.len(),
    {
        self.move_tail();
        let d = self.move_head();
        assert(self.parts@ =~= advanced(old(self).parts@, d));
        d
    }

    /// The head has run into the tail; see `bites_itself`.
    pub fn self_collision(&self) -> (r: bool)
        requires
            self.wf(),
        ensures
            r == bites_itself(self.parts@),
    {
        let len = self.parts.len();
        if len <= 2 {
            return false;
        }
        let head = self.parts[0];
        let mut i: usize = 1;
        while i < len
            invariant
                len == self.parts@.len(),
                len > 2,
                head == self.parts@[0],
                1 <= i <= len,
                forall|k: int| 1 <= k < i ==> #[trigger] self.parts@[k] != head,
            decreases len - i,
        {
            if self.parts[i] == head {
                return true;
            }
            i = i + 1;
        }
        false
    }
}

/// A snake of two segments, the head and one more, never counts as biting
/// itself, even where the two share a cell.
pub proof fn lemma_short_snake_never_bites(parts: Seq<Cell>)
    requires
        parts.len() <= 2,
    ensures
        !bites_itself(parts),
{
}

} // verus!
