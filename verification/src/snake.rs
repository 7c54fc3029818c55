//! The snake itself: the ordered segment chain and the movement / feeding
//! state machine. Each tick folds the sampled input signals into the pending
//! direction and feed effect, accumulates elapsed travel, and performs one
//! atomic one-tile step whenever the travel budget reaches a tile's width.

use vstd::prelude::*;

use crate::grid::{advanced, can_advance, opposite, Direction, Grid, Point, TILE_SIZE};

verus! {

/// Travel budget that triggers one step: one tile's width of travel, in
/// pixel-milliseconds (`TILE_SIZE` pixels times 1000 milliseconds per
/// second, since speed is measured in pixels per second and elapsed time in
/// milliseconds).
pub const STEP_BUDGET: u64 = 32 * 1000;

/// One body unit of the snake: its grid cell, and the direction it was
/// facing when it was last the head (which picks its draw orientation).
#[derive(Clone, Copy, Debug, PartialEq, Eq, Structural)]
pub struct SnakeSegment {
    pub point: Point,
    pub direction: Direction,
}

impl SnakeSegment {
    pub fn new(point: Point, direction: Direction) -> (s: SnakeSegment)
        ensures
            s.point == point,
            s.direction == direction,
    {
        Self { point, direction }
    }
}

/// A pending one-shot feed effect, consumed on the next step. Effects do not
/// queue: a new one is accepted only while none is pending.
#[derive(Clone, Copy, Debug, PartialEq, Eq, Structural)]
pub enum FoodEffect {
    Grow,
    Shrink,
}

/// The input one tick consumes: the discrete "was pressed this frame"
/// signals sampled by the host loop, and the time elapsed since the last
/// tick, in milliseconds.
#[derive(Clone, Copy, Debug)]
pub struct TickInput {
    pub up_pressed: bool,
    pub down_pressed: bool,
    pub left_pressed: bool,
    pub right_pressed: bool,
    pub grow_pressed: bool,
    pub shrink_pressed: bool,
    pub elapsed_ms: u32,
}

/// The pending direction after one tick's direction requests, folded in the
/// fixed order up, down, left, right. A request is accepted only if it is
/// neither the reverse of the pending direction so far nor the reverse of
/// the head's stored facing, so the head can never turn straight into the
/// neck.
pub open spec fn next_direction(cur: Direction, head_dir: Direction, input: TickInput) -> Direction {
    let d1 = if input.up_pressed && cur != Direction::Down && head_dir != Direction::Down {
        Direction::Up
    } else {
        cur
    };
    let d2 = if input.down_pressed && d1 != Direction::Up && head_dir != Direction::Up {
        Direction::Down
    } else {
        d1
    };
    let d3 = if input.left_pressed && d2 != Direction::Right && head_dir != Direction::Right {
        Direction::Left
    } else {
        d2
    };
    if input.right_pressed && d3 != Direction::Left && head_dir != Direction::Left {
        Direction::Right
    } else {
        d3
    }
}

/// Folding direction requests into a pending direction that is not the
/// reverse of the head's facing leaves it so: every accepted request is
/// checked against the head's facing.
pub proof fn lemma_next_direction_no_reversal(cur: Direction, head_dir: Direction, input: TickInput)
    requires
        cur != opposite(head_dir),
    ensures
        next_direction(cur, head_dir, input) != opposite(head_dir),
{
}

/// A direction request equal to the exact reverse of the head's stored
/// facing is always rejected: when every direction key pressed in a tick
/// asks for the reverse of the head's facing, the pending direction comes
/// out unchanged.
pub proof fn lemma_reversal_rejected(cur: Direction, head_dir: Direction, input: TickInput)
    requires
        input.up_pressed ==> Direction::Up == opposite(head_dir),
        input.down_pressed ==> Direction::Down == opposite(head_dir),
        input.left_pressed ==> Direction::Left == opposite(head_dir),
        input.right_pressed ==> Direction::Right == opposite(head_dir),
    ensures
        next_direction(cur, head_dir, input) == cur,
{
}

/// The pending feed effect after one tick's feed requests: a request is
/// latched only while no effect is pending, growth checked before shrink.
pub open spec fn next_food(cur: Option<FoodEffect>, input: TickInput) -> Option<FoodEffect> {
    let f1 = if input.grow_pressed && cur is None {
        Some(FoodEffect::Grow)
    } else {
        cur
    };
    if input.shrink_pressed && f1 is None {
        Some(FoodEffect::Shrink)
    } else {
        f1
    }
}

/// Feeding resolution at a step: with no pending effect exactly one tail
/// segment is dropped; growth drops none; shrink drops one unconditionally
/// and a second only if at least three segments remain after the first drop.
pub open spec fn resolve_feeding(s: Seq<SnakeSegment>, f: Option<FoodEffect>) -> Seq<SnakeSegment> {
    match f {
        None => s.drop_last(),
        Some(FoodEffect::Grow) => s,
        Some(FoodEffect::Shrink) => {
            let s1 = s.drop_last();
            if s1.len() >= 3 {
                s1.drop_last()
            } else {
                s1
            }
        },
    }
}

/// One full step of the chain: the head's stored facing is rewritten to the
/// step direction (so the renderer can draw a corner at what becomes the
/// neck), feeding is resolved against the tail, and the new head is
/// prepended one tile ahead.
pub open spec fn step_chain(s: Seq<SnakeSegment>, d: Direction, f: Option<FoodEffect>) -> Seq<
    SnakeSegment,
> {
    let turned = s.update(0, (SnakeSegment { point: s[0].point, direction: d }));
    let fed = resolve_feeding(turned, f);
    seq![(SnakeSegment { point: advanced(s[0].point, d), direction: d })] + fed
}

/// Travel gained in one tick, in pixel-milliseconds.
pub open spec fn travel_gain(input: TickInput, velocity: u32) -> int {
    input.elapsed_ms * velocity
}

/// The travel budget after one tick: the gain is added, and one tile's
/// width is subtracted - not zeroed - when the budget reaches it, so
/// sub-tile overshoot carries over across frames.
pub open spec fn tick_budget(acc: int, gain: int) -> int {
    if acc + gain < STEP_BUDGET {
        acc + gain
    } else {
        acc + gain - STEP_BUDGET
    }
}

/// Whether one tick fires a step (1) or stays idle (0).
pub open spec fn tick_steps(acc: int, gain: int) -> int {
    if acc + gain < STEP_BUDGET {
        0
    } else {
        1
    }
}

/// Total travel gained over a run of ticks, in pixel-milliseconds.
pub open spec fn total_gain(gains: Seq<int>) -> int
    decreases gains.len(),
{
    if gains.len() == 0 {
        0
    } else {
        gains[0] + total_gain(gains.drop_first())
    }
}

/// The travel budget left after a run of ticks starting from `acc`.
pub open spec fn budget_after(acc: int, gains: Seq<int>) -> int
    decreases gains.len(),
{
    if gains.len() == 0 {
        acc
    } else {
        budget_after(tick_budget(acc, gains[0]), gains.drop_first())
    }
}

/// How many steps a run of ticks fires, starting from budget `acc`.
pub open spec fn steps_during(acc: int, gains: Seq<int>) -> int
    decreases gains.len(),
{
    if gains.len() == 0 {
        0
    } else {
        tick_steps(acc, gains[0]) + steps_during(tick_budget(acc, gains[0]), gains.drop_first())
    }
}

/// A run of nonnegative gains has a nonnegative total.
pub proof fn lemma_total_gain_nonneg(gains: Seq<int>)
    requires
        forall|i: int| 0 <= i < gains.len() ==> 0 <= #[trigger] gains[i],
    ensures
        0 <= total_gain(gains),
    decreases gains.len(),
{
    if gains.len() > 0 {
        let rest = gains.drop_first();
        assert forall|i: int| 0 <= i < rest.len() implies 0 <= #[trigger] rest[i] by {
            assert(rest[i] == gains[i + 1]);
        }
        lemma_total_gain_nonneg(rest);
    }
}

/// A run of ticks whose total travel keeps the budget under one tile's
/// width fires no step and leaves the budget the exact running sum.
pub proof fn lemma_travel_under_budget(acc: int, gains: Seq<int>)
    requires
        0 <= acc,
        forall|i: int| 0 <= i < gains.len() ==> 0 <= #[trigger] gains[i],
        acc + total_gain(gains) < STEP_BUDGET,
    ensures
        steps_during(acc, gains) == 0,
        budget_after(acc, gains) == acc + total_gain(gains),
    decreases gains.len(),
{
    if gains.len() > 0 {
        let g0 = gains[0];
        let rest = gains.drop_first();
        assert forall|i: int| 0 <= i < rest.len() implies 0 <= #[trigger] rest[i] by {
            assert(rest[i] == gains[i + 1]);
        }
        lemma_total_gain_nonneg(rest);
        lemma_travel_under_budget(acc + g0, rest);
    }
}

/// Over any run of ticks whose total travel, on top of the starting budget,
/// amounts to at least one tile's width but less than two, exactly one step
/// fires - advancing the chain by exactly one tile, as `update` states - and
/// the budget left over is the exact overshoot past the tile's width, zero
/// only when the total landed exactly on it.
pub proof fn lemma_single_tile_travel(acc: int, gains: Seq<int>)
    requires
        0 <= acc < STEP_BUDGET,
        forall|i: int| 0 <= i < gains.len() ==> 0 <= #[trigger] gains[i],
        STEP_BUDGET <= acc + total_gain(gains) < 2 * STEP_BUDGET,
    ensures
        steps_during(acc, gains) == 1,
        budget_after(acc, gains) == acc + total_gain(gains) - STEP_BUDGET,
    decreases gains.len(),
{
    let g0 = gains[0];
    let rest = gains.drop_first();
    assert forall|i: int| 0 <= i < rest.len() implies 0 <= #[trigger] rest[i] by {
        assert(rest[i] == gains[i + 1]);
    }
    lemma_total_gain_nonneg(rest);
    if acc + g0 < STEP_BUDGET {
        lemma_single_tile_travel(acc + g0, rest);
    } else {
        lemma_travel_under_budget(acc + g0 - STEP_BUDGET, rest);
    }
}

/// The snake: the ordered segment chain (index 0 the head, the last the
/// tail), the pending direction for the next step, the pending feed effect,
/// the accumulated travel budget, and the speed in pixels per second.
#[derive(Debug)]
pub struct Snake {
    pub food_source: Option<FoodEffect>,
    pub distance_accumulated: u64,
    pub direction: Direction,
    pub segments: Vec<SnakeSegment>,
    pub velocity: u32,
}

impl Snake {
    /// The snake's validity: at least head, neck and tail; every segment's
    /// point has its pixel fields aligned to its tile; and the pending
    /// direction is never the exact reverse of the head's stored facing.
    pub open spec fn wf(self) -> bool {
        &&& self.segments@.len() >= 3
        &&& forall|i: int|
            0 <= i < self.segments@.len() ==> (#[trigger] self.segments@[i]).point.wf()
        &&& self.direction != opposite(self.segments@[0].direction)
    }

    /// Builds the starting snake: four segments laid out contiguously behind
    /// the starting point, all facing right, no pending feed effect, an
    /// empty travel budget, and a speed of 32 pixels per second.
    pub fn new(grid: &Grid, starting_point: Point) -> (snake: Snake)
        requires
            starting_point.wf(),
            isize::MIN <= starting_point.x - 3,
            isize::MIN <= starting_point.x_actual - 3 * TILE_SIZE,
        ensures
            snake.wf(),
            snake.direction == Direction::Right,
            snake.food_source is None,
            snake.distance_accumulated == 0,
            snake.velocity == 32,
            snake.segments@.len() == 4,
            forall|i: int|
                0 <= i < 4 ==> {
                    &&& (#[trigger] snake.segments@[i]).direction == Direction::Right
                    &&& snake.segments@[i].point.x == starting_point.x - i
                    &&& snake.segments@[i].point.y == starting_point.y
                    &&& snake.segments@[i].point.wf()
                },
    {
        let mut segments: Vec<SnakeSegment> = Vec::new();
        segments.push(SnakeSegment { point: starting_point, direction: Direction::Right });
        segments.push(
            SnakeSegment {
                point: grid.get_location(starting_point.x - 1, starting_point.y),
                direction: Direction::Right,
            },
        );
        segments.push(
            SnakeSegment {
                point: grid.get_location(starting_point.x - 2, starting_point.y),
                direction: Direction::Right,
            },
        );
        segments.push(
            SnakeSegment {
                point: grid.get_location(starting_point.x - 3, starting_point.y),
                direction: Direction::Right,
            },
        );
        Snake {
            direction: Direction::Right,
            distance_accumulated: 0,
            food_source: None,
            segments,
            velocity: 32,
        }
    }

    /// The first segment: the head.
    pub fn get_head(&self) -> (s: SnakeSegment)
        requires
            self.segments@.len() >= 1,
        ensures
            s == self.segments@[0],
    {
        self.segments[0]
    }

    /// The second segment: the neck.
    pub fn get_neck(&self) -> (s: SnakeSegment)
        requires
            self.segments@.len() >= 2,
        ensures
            s == self.segments@[1],
    {
        self.segments[1]
    }

    /// The last segment: the tail.
    pub fn get_tail(&self) -> (s: SnakeSegment)
        requires
            self.segments@.len() >= 1,
        ensures
            s == self.segments@[self.segments@.len() - 1],
    {
        self.segments[self.segments.len() - 1]
    }

    /// How many segments the chain holds.
    pub fn segment_count(&self) -> (n: usize)
        ensures
            n == self.segments@.len(),
    {
        self.segments.len()
    }

    /// The segment at `index`: 0 is the head, the last is the tail.
    pub fn segment_at(&self, index: usize) -> (s: SnakeSegment)
        requires
            index < self.segments@.len(),
        ensures
            s == self.segments@[index as int],
    {
        self.segments[index]
    }

    /// Resolves the pending feed effect against the tail end of the chain
    /// and clears it. With no effect pending, exactly one tail segment is
    /// dropped (the chain keeps its length once the new head is prepended);
    /// growth drops none; shrink drops one unconditionally and a second only
    /// if at least three segments remain after the first drop.
    pub fn handle_eating(&mut self)
        requires
            old(self).segments@.len() >= 1,
        ensures
            final(self).segments@ == resolve_feeding(old(self).segments@, old(self).food_source),
            final(self).food_source is None,
            final(self).direction == old(self).direction,
            final(self).distance_accumulated == old(self).distance_accumulated,
            final(self).velocity == old(self).velocity,
            old(self).food_source is None ==> final(self).segments@.len() == old(
                self,
            ).segments@.len() - 1,
            old(self).food_source == Some(FoodEffect::Grow) ==> final(self).segments@.len() == old(
                self,
            ).segments@.len(),
            old(self).food_source == Some(FoodEffect::Shrink) ==> final(self).segments@.len() == (
            if old(self).segments@.len() - 1 >= 3 {
                old(self).segments@.len() - 2
            } else {
                old(self).segments@.len() - 1
            }),
    {
        match self.food_source {
            None => {
                // Drop once so the chain stays the same size after the new
                // head is prepended.
                self.segments.pop();
            },
            Some(FoodEffect::Grow) => {
                self.food_source = None;
            },
            Some(FoodEffect::Shrink) => {
                // One drop for motion, one more for the shrink itself, the
                // second capped so the chain does not fall below three here.
                self.segments.pop();
                if self.segments.len() >= 3 {
                    self.segments.pop();
                }
                self.food_source = None;
            },
        }
    }

    /// One tick of the movement state machine. The pressed signals are
    /// folded into the pending direction (reversals rejected) and the
    /// pending feed effect (latched only while none is pending); the
    /// elapsed travel is added to the budget; and once the budget reaches
    /// one tile's width, one tile's width is subtracted from it and the
    /// chain performs one atomic step: the head's stored facing is
    /// rewritten to the step direction, feeding is resolved against the
    /// tail, and a new head is prepended one tile ahead.
    pub fn update(&mut self, grid: &Grid, input: TickInput)
        requires
            old(self).wf(),
            old(self).distance_accumulated + travel_gain(input, old(self).velocity) <= u64::MAX,
            tick_steps(
                old(self).distance_accumulated as int,
                travel_gain(input, old(self).velocity),
            ) == 1 ==> can_advance(
                old(self).segments@[0].point,
                next_direction(old(self).direction, old(self).segments@[0].direction, input),
            ),
        ensures
            final(self).wf(),
            final(self).velocity == old(self).velocity,
            final(self).direction == next_direction(
                old(self).direction,
                old(self).segments@[0].direction,
                input,
            ),
            final(self).distance_accumulated == tick_budget(
                old(self).distance_accumulated as int,
                travel_gain(input, old(self).velocity),
            ),
            tick_steps(
                old(self).distance_accumulated as int,
                travel_gain(input, old(self).velocity),
            ) == 0 ==> {
                &&& final(self).segments@ == old(self).segments@
                &&& final(self).food_source == next_food(old(self).food_source, input)
            },
            tick_steps(
                old(self).distance_accumulated as int,
                travel_gain(input, old(self).velocity),
            ) == 1 ==> {
                &&& final(self).food_source is None
                &&& final(self).segments@ == step_chain(
                    old(self).segments@,
                    next_direction(old(self).direction, old(self).segments@[0].direction, input),
                    next_food(old(self).food_source, input),
                )
            },
            final(self).segments@.len() == (if tick_steps(
                old(self).distance_accumulated as int,
                travel_gain(input, old(self).velocity),
            ) == 0 {
                old(self).segments@.len() as int
            } else {
                match next_food(old(self).food_source, input) {
                    None => old(self).segments@.len() as int,
                    Some(FoodEffect::Grow) => old(self).segments@.len() + 1int,
                    Some(FoodEffect::Shrink) => if old(self).segments@.len() >= 4 {
                        old(self).segments@.len() - 1
                    } else {
                        old(self).segments@.len() as int
                    },
                }
            }),
    {
        let ghost start = *old(self);
        let head = self.get_head();
        if input.up_pressed && self.direction != Direction::Down && head.direction
            != Direction::Down {
            self.direction = Direction::Up;
        }
        if input.down_pressed && self.direction != Direction::Up && head.direction
            != Direction::Up {
            self.direction = Direction::Down;
        }
        if input.left_pressed && self.direction != Direction::Right && head.direction
            != Direction::Right {
            self.direction = Direction::Left;
        }
        if input.right_pressed && self.direction != Direction::Left && head.direction
            != Direction::Left {
            self.direction = Direction::Right;
        }

        proof {
            assert(self.direction == next_direction(
                start.direction,
                start.segments@[0].direction,
                input,
            ));
            lemma_next_direction_no_reversal(start.direction, start.segments@[0].direction, input);
        }

        if input.grow_pressed && self.food_source.is_none() {
            self.food_source = Some(FoodEffect::Grow);
        }
        if input.shrink_pressed && self.food_source.is_none() {
            self.food_source = Some(FoodEffect::Shrink);
        }

        proof {
            assert(self.food_source == next_food(start.food_source, input));
            assert(input.elapsed_ms as u64 * self.velocity as u64 <= u64::MAX) by (nonlinear_arith)
                requires
                    input.elapsed_ms <= u32::MAX,
                    self.velocity <= u32::MAX,
            ;
        }
        let gain: u64 = input.elapsed_ms as u64 * self.velocity as u64;
        self.distance_accumulated = self.distance_accumulated + gain;

        if self.distance_accumulated < STEP_BUDGET {
            return ;
        }
        self.distance_accumulated = self.distance_accumulated - STEP_BUDGET;

        self.step(grid);
    }

    /// One atomic step of the chain in the pending direction: the head's
    /// stored facing is rewritten to the step direction, the pending feed
    /// effect is resolved against the tail, and a new head is prepended one
    /// tile ahead.
    fn step(&mut self, grid: &Grid)
        requires
            old(self).segments@.len() >= 3,
            forall|i: int|
                0 <= i < old(self).segments@.len() ==> (
                #[trigger] old(self).segments@[i]).point.wf(),
            can_advance(old(self).segments@[0].point, old(self).direction),
        ensures
            final(self).segments@ == step_chain(
                old(self).segments@,
                old(self).direction,
                old(self).food_source,
            ),
            final(self).food_source is None,
            final(self).direction == old(self).direction,
            final(self).distance_accumulated == old(self).distance_accumulated,
            final(self).velocity == old(self).velocity,
            forall|i: int|
                0 <= i < final(self).segments@.len() ==> (
                #[trigger] final(self).segments@[i]).point.wf(),
            final(self).segments@.len() == (match old(self).food_source {
                None => old(self).segments@.len() as int,
                Some(FoodEffect::Grow) => old(self).segments@.len() + 1int,
                Some(FoodEffect::Shrink) => if old(self).segments@.len() >= 4 {
                    old(self).segments@.len() - 1
                } else {
                    old(self).segments@.len() as int
                },
            }),
    {
        let new_point = grid.advance(self.segments[0].point, self.direction);
        let new_head = SnakeSegment::new(new_point, self.direction);

        let head_now = self.segments[0];
        if head_now.direction != self.direction {
            // Rewrite the old head's facing so the renderer draws the turn
            // at what is about to become the neck.
            self.segments[0] = SnakeSegment { point: head_now.point, direction: self.direction };
        }

        self.handle_eating();
        self.segments.insert(0, new_head);

        proof {
            let s = old(self).segments@;
            let ndir = old(self).direction;
            let f1 = old(self).food_source;
            let turned = s.update(0, (SnakeSegment { point: s[0].point, direction: ndir }));
            let fed = resolve_feeding(turned, f1);
            assert(turned.len() == s.len());
            match f1 {
                None => {
                    assert(fed.len() == s.len() - 1);
                },
                Some(FoodEffect::Grow) => {
                    assert(fed.len() == s.len());
                },
                Some(FoodEffect::Shrink) => {
                    assert(fed.len() == if s.len() - 1 >= 3 {
                        s.len() - 2
                    } else {
                        s.len() - 1
                    });
                },
            }
            assert(self.segments@ =~= step_chain(s, ndir, f1));
            assert forall|i: int|
                0 <= i < self.segments@.len() implies (
                #[trigger] self.segments@[i]).point.wf() by {
                if i == 0 {
                    assert(self.segments@[0].point == advanced(s[0].point, ndir));
                } else {
                    assert(fed[i - 1] == turned[i - 1]);
                    assert(turned[i - 1].point == s[i - 1].point);
                }
            }
        }
    }
}

} // verus!
