use vstd::prelude::*;
use std::collections::VecDeque;
use crate::direction::{Direction, opposite_of};

verus! {

/// The facing of the snake's head and the turns the player asked for since
/// the last tick, oldest first.
#[derive(Debug)]
pub struct Head {
    pub planned_direction: VecDeque<Direction>,
    pub direction: Direction,
}

/// The direction the head will face once every planned turn is taken: the
/// newest planned turn, or the current facing when none is planned.
pub open spec fn last_planned(planned: Seq<Direction>, current: Direction) -> Direction {
    if planned.len() == 0 {
        current
    } else {
        planned.last()
    }
}

/// The queue after a request to turn towards `d`: a turn back onto the
/// newest plan is dropped, a repeat of the newest plan is dropped, and any
/// other turn is appended.
pub open spec fn pushed(planned: Seq<Direction>, current: Direction, d: Direction) -> Seq<
    Direction,
> {
    if d == opposite_of(last_planned(planned, current)) {
        planned
    } else if planned.len() > 0 && planned.last() == d {
        planned
    } else {
        planned.push(d)
    }
}

/// The facing for the coming tick: the oldest planned turn, unless none is
/// planned or it points straight back.
pub open spec fn turned_direction(planned: Seq<Direction>, current: Direction) -> Direction {
    if planned.len() > 0 && planned[0] != opposite_of(current) {
        planned[0]
    } else {
        current
    }
}

/// The planned turns after a tick: the oldest is taken, or, where it points
/// straight back, all are dropped.
pub open spec fn turned_queue(planned: Seq<Direction>, current: Direction) -> Seq<Direction> {
    if planned.len() == 0 {
        planned
    } else if planned[0] != opposite_of(current) {
        planned.drop_first()
    } else {
        Seq::<Direction>::empty()
    }
}

impl Head {
    /// A head facing `direction` with no planned turns.
    pub fn new(direction: Direction) -> (h: Head)
        ensures
            h.direction == direction,
            h.planned_direction@ == Seq::<Direction>::empty(),
    {
        Head { planned_direction: VecDeque::new(), direction }
    }

    /// The player asks to turn towards `d`.
    pub fn push(&mut self, d: Direction)
        ensures
            final(self).direction == old(self).direction,
            final(self).planned_direction@ == pushed(
                old(self).planned_direction@,
                old(self).direction,
                d,
            ),
    {
        let len = self.planned_direction.len();
        let last = if len == 0 {
            self.direction
        } else {
            self.planned_direction[len - 1]
        };
        if d == last.opposite() {
            return;
        }
        if len > 0 && last == d {
            return;
        }
        self.planned_direction.push_back(d);
    }

    /// Takes the oldest planned turn, if any.
    pub fn pop_for_tick(&mut self) -> (r: Option<Direction>)
        ensures
            final(self).direction == old(self).direction,
            old(self).planned_direction@.len() == 0 ==> r is None
                && final(self).planned_direction@ == old(self).planned_direction@,
            old(self).planned_direction@.len() > 0 ==> r == Some(old(self).planned_direction@[0])
                && final(self).planned_direction@ == old(self).planned_direction@.drop_first(),
    {
        self.planned_direction.pop_front()
    }

    /// Settles the facing for the coming tick: the oldest planned turn is
    /// taken unless it points straight back, in which case every planned
    /// turn is dropped and the facing is kept.
    pub fn turn(&mut self) -> (d: Direction)
        ensures
            d == final(self).direction,
            final(self).direction == turned_direction(
                old(self).planned_direction@,
                old(self).direction,
            ),
            final(self).planned_direction@ == turned_queue(
                old(self).planned_direction@,
                old(self).direction,
            ),
    {
        match self.pop_for_tick() {
            Some(plan) => {
                if self.direction != plan.opposite() {
                    self.direction = plan;
                } else {
                    self.planned_direction.clear();
                }
            },
            None => {},
        }
        self.direction
    }
}

/// A request to turn straight back, against the newest plan or the current
/// facing when none is planned, leaves the queue as it was.
pub proof fn lemma_reverse_rejected(planned: Seq<Direction>, current: Direction)
    ensures
        pushed(planned, current, opposite_of(last_planned(planned, current))) == planned,
{
}

} // verus!
