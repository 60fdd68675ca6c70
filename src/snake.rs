//! The snake: its head, its trail of body segments, the direction it moves in
//! and the one turn it may hold back for the next tick.
use vstd::prelude::*;

use std::collections::VecDeque;

use crate::grid::{opposite, step, Direction, Position};

verus! {

broadcast use vstd::std_specs::vecdeque::group_vec_dequeue_axioms;

/// One cell of the snake's body.
#[derive(Clone, Copy, Debug, PartialEq, Eq, Structural)]
pub struct Segment {
    pub pos: Position,
}

impl Segment {
    pub fn new(pos: Position) -> (r: Segment)
        ensures
            r.pos == pos,
    {
        Segment { pos }
    }
}

/// The food item; eating it moves it elsewhere.
#[derive(Debug)]
pub struct Food {
    pub pos: Position,
}

impl Food {
    pub fn new(pos: Position) -> (r: Food)
        ensures
            r.pos == pos,
    {
        Food { pos }
    }

    /// Moves the food to `pos`.
    pub fn relocate(&mut self, pos: Position)
        ensures
            final(self).pos == pos,
    {
        self.pos = pos;
    }
}

/// What the head ran into on the last tick.
#[derive(Clone, Copy, Debug, PartialEq, Eq, Structural)]
pub enum Ate {
    Itself,
    Food,
}

/// Some segment of `segs` lies on `p`.
pub open spec fn occupies(segs: Seq<Segment>, p: Position) -> bool {
    exists|i: int| 0 <= i < segs.len() && (#[trigger] segs[i]).pos == p
}

#[derive(Debug)]
pub struct Snake {
    pub head: Segment,
    /// The direction committed for the coming move.
    pub dir: Direction,
    /// The body, from the segment next to the head to the tail at the back.
    pub body: VecDeque<Segment>,
    /// What the head ran into on the last tick, if anything.
    pub ate: Option<Ate>,
    /// The direction of the last completed move.
    pub prev_dir: Direction,
    /// A turn held back until the committed one has been made.
    pub next_dir: Option<Direction>,
}

impl Snake {
    /// Every cell of the snake lies on the grid.
    pub open spec fn wf(&self) -> bool {
        &&& self.head.pos.wf()
        &&& forall|i: int| 0 <= i < self.body@.len() ==> (#[trigger] self.body@[i]).pos.wf()
    }

    /// A held-back turn is taken at the start of the tick.
    pub open spec fn turn_due(&self) -> bool {
        self.prev_dir == self.dir && self.next_dir is Some
    }

    /// The direction the coming tick moves in.
    pub open spec fn move_dir(&self) -> Direction {
        if self.turn_due() {
            self.next_dir->0
        } else {
            self.dir
        }
    }

    /// The held-back turn once the coming tick has been made.
    pub open spec fn pending_after(&self) -> Option<Direction> {
        if self.turn_due() {
            None
        } else {
            self.next_dir
        }
    }

    /// Where the head goes on the coming tick.
    pub open spec fn next_head(&self) -> Position {
        step(self.head.pos, self.move_dir())
    }

    /// The body once the old head has joined its front.
    pub open spec fn trail(&self) -> Seq<Segment> {
        seq![self.head] + self.body@
    }

    /// What the coming tick runs into, with food at `food`: the snake's own
    /// body first, the food second.
    pub open spec fn outcome(&self, food: Position) -> Option<Ate> {
        if occupies(self.trail(), self.next_head()) {
            Some(Ate::Itself)
        } else if self.next_head() == food {
            Some(Ate::Food)
        } else {
            None
        }
    }

    /// The body after the coming tick: the tail leaves unless something was
    /// eaten.
    pub open spec fn body_after(&self, food: Position) -> Seq<Segment> {
        if self.outcome(food) is None {
            self.trail().drop_last()
        } else {
            self.trail()
        }
    }

    /// A snake with its head on `pos`, facing right, and one body segment on
    /// the cell to the left of it.
    pub fn new(pos: Position) -> (r: Snake)
        requires
            pos.wf(),
        ensures
            r.wf(),
            r.head.pos == pos,
            r.body@ == seq![Segment { pos: step(pos, Direction::Left) }],
            r.dir == Direction::Right,
            r.prev_dir == Direction::Right,
            r.next_dir is None,
            r.ate is None,
    {
        let mut body = VecDeque::new();
        body.push_back(Segment::new(Position::next(pos, Direction::Left)));
        Snake {
            head: Segment::new(pos),
            dir: Direction::Right,
            body,
            ate: None,
            prev_dir: Direction::Right,
            next_dir: None,
        }
    }

    /// The head lies on the food.
    pub fn eats(&self, food: &Food) -> (r: bool)
        ensures
            r == (self.head.pos == food.pos),
    {
        self.head.pos == food.pos
    }

    /// The head lies on a segment of the body.
    pub fn eats_self(&self) -> (r: bool)
        ensures
            r == occupies(self.body@, self.head.pos),
    {
        let n = self.body.len();
        let mut i: usize = 0;
        while i < n
            invariant
                n == self.body@.len(),
                i <= n,
                forall|j: int| 0 <= j < i ==> (#[trigger] self.body@[j]).pos != self.head.pos,
            decreases n - i,
        {
            if self.body[i].pos == self.head.pos {
                return true;
            }
            i += 1;
        }
        false
    }

    /// One tick: takes a held-back turn if the last one has been made, moves
    /// the head one cell, records what it ran into (its own body before the
    /// food) and drops the tail unless it ate something.
    pub fn update(&mut self, food: &Food)
        requires
            old(self).wf(),
        ensures
            advanced(old(self), final(self), food.pos),
    {
        if self.prev_dir == self.dir && self.next_dir.is_some() {
            self.dir = self.next_dir.unwrap();
            self.next_dir = None;
        }
        let new_head = Segment::new(Position::next(self.head.pos, self.dir));
        self.body.push_front(self.head);
        self.head = new_head;

        if self.eats_self() {
            self.ate = Some(Ate::Itself);
        } else if self.eats(food) {
            self.ate = Some(Ate::Food);
        } else {
            self.ate = None;
        }

        if self.ate.is_none() {
            self.body.pop_back();
        }
        self.prev_dir = self.dir;
    }

    /// A direction request between ticks. While a turn waits to be made, a
    /// request that does not reverse it is held back for the next tick, in
    /// place of any held before; otherwise a request that does not reverse the
    /// last move is committed at once; anything else is ignored.
    pub fn steer(&mut self, requested: Direction)
        ensures
            steered(old(self), final(self), requested),
    {
        if self.dir != self.prev_dir && requested.inverse() != self.dir {
            self.next_dir = Some(requested);
        } else if requested.inverse() != self.prev_dir {
            self.dir = requested;
        }
    }
}

/// `after` is `before` after one tick with food at `food`.
pub open spec fn advanced(before: &Snake, after: &Snake, food: Position) -> bool {
    &&& after.wf()
    &&& after.dir == before.move_dir()
    &&& after.prev_dir == before.move_dir()
    &&& after.next_dir == before.pending_after()
    &&& after.head.pos == before.next_head()
    &&& after.ate == before.outcome(food)
    &&& after.body@ == before.body_after(food)
    &&& after.body@.len() == before.body@.len() + if after.ate is None {
        0int
    } else {
        1int
    }
}

/// The committed direction and the held-back turn after a request for
/// `requested`, given the committed direction `dir`, the last move's direction
/// `prev_dir` and the turn held back so far.
pub open spec fn arbitrate(
    dir: Direction,
    prev_dir: Direction,
    next_dir: Option<Direction>,
    requested: Direction,
) -> (Direction, Option<Direction>) {
    if dir != prev_dir && opposite(requested) != dir {
        (dir, Some(requested))
    } else if opposite(requested) != prev_dir {
        (requested, next_dir)
    } else {
        (dir, next_dir)
    }
}

/// `after` is `before` after a request for `requested`: only the committed
/// direction and the held-back turn may change.
pub open spec fn steered(before: &Snake, after: &Snake, requested: Direction) -> bool {
    &&& after.head == before.head
    &&& after.body@ == before.body@
    &&& after.ate == before.ate
    &&& after.prev_dir == before.prev_dir
    &&& (after.dir, after.next_dir) == arbitrate(before.dir, before.prev_dir, before.next_dir, requested)
}

/// The body grows by one on a tick that runs into food or into the snake
/// itself, and keeps its length on any other tick.
pub proof fn lemma_growth(s: &Snake, food: Position)
    ensures
        s.body_after(food).len() == s.body@.len() + if s.outcome(food) is None {
            0int
        } else {
            1int
        },
{
}

/// Number of ticks among the first `n` of `run` on which the snake ate
/// something.
pub open spec fn meals(run: Seq<Snake>, n: nat) -> nat
    decreases n,
{
    if n == 0 {
        0
    } else {
        meals(run, (n - 1) as nat) + if run[n as int].ate is None {
            0nat
        } else {
            1nat
        }
    }
}

/// Over a run of ticks, each state following the one before it with the food
/// where `foods` says, the body's length grows by exactly the number of ticks
/// that ate something, and stays the same when none did.
pub proof fn lemma_growth_over_run(run: Seq<Snake>, foods: Seq<Position>)
    requires
        run.len() >= 1,
        foods.len() + 1 == run.len(),
        forall|i: int| 0 <= i < foods.len() ==> advanced(&run[i], &run[i + 1], #[trigger] foods[i]),
    ensures
        run.last().body@.len() == run[0].body@.len() + meals(run, foods.len()),
    decreases foods.len(),
{
    if foods.len() > 0 {
        let k = foods.len() - 1;
        let prefix = run.drop_last();
        assert forall|i: int| 0 <= i < foods.drop_last().len() implies advanced(
            &prefix[i],
            &prefix[i + 1],
            #[trigger] foods.drop_last()[i],
        ) by {
            assert(foods.drop_last()[i] == foods[i]);
        }
        lemma_growth_over_run(prefix, foods.drop_last());
        assert(advanced(&run[k], &run[k + 1], foods[k]));
        lemma_meals_prefix(run, k as nat);
        assert(prefix.last() == run[k]);
    }
}

proof fn lemma_meals_prefix(run: Seq<Snake>, j: nat)
    requires
        j + 1 < run.len(),
    ensures
        meals(run.drop_last(), j) == meals(run, j),
    decreases j,
{
    if j > 0 {
        lemma_meals_prefix(run, (j - 1) as nat);
    }
}

/// Where the head's next cell holds both a body segment and the food, the
/// tick counts as the snake running into itself.
pub proof fn lemma_self_before_food(s: &Snake, food: Position)
    requires
        occupies(s.trail(), s.next_head()),
        s.next_head() == food,
    ensures
        s.outcome(food) == Some(Ate::Itself),
{
}

} // verus!
