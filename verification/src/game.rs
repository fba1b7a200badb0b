//! The simulation state and its per-frame step functions: input resolution,
//! the movement tick, collision detection, growth, and the food spawner.

use vstd::prelude::*;
use vstd::pervasive::VecAdditionalExecFns;
use crate::chain::shift_chain;
use crate::direction::{resolved_direction, Direction};
use crate::position::{can_step, dx, dy, in_arena, Position, ARENA_HEIGHT, ARENA_WIDTH};
use crate::timer::TickTimer;

verus! {

/// Interval of the movement tick, in milliseconds.
pub const MOVEMENT_INTERVAL_MS: u64 = 250;

/// Interval of the food-spawner tick, in milliseconds.
pub const FOOD_SPAWN_INTERVAL_MS: u64 = 1000;

/// One unit of the snake's body: an opaque identity plus the cell it
/// occupies. The segment at chain index 0 is the head.
#[derive(Clone, Copy, Debug, PartialEq, Eq, Structural)]
pub struct Segment {
    pub id: u64,
    pub pos: Position,
}

/// One food item on the arena: an opaque identity plus the cell it occupies.
/// Several food items may share a cell.
#[derive(Clone, Copy, Debug, PartialEq, Eq, Structural)]
pub struct Food {
    pub id: u64,
    pub pos: Position,
}

/// The failure of a growth pass: a growth signal was pending although no
/// movement tick has recorded a vacated tail cell yet.
#[derive(Clone, Copy, Debug, PartialEq, Eq, Structural)]
pub enum GrowthError {
    NoTailRecorded,
}

/// The predicate a food item must satisfy to survive a collision pass
/// against a head at `head`: it does not share the head's cell.
pub open spec fn survives(head: Position) -> spec_fn(Food) -> bool {
    |f: Food| f.pos != head
}

/// The whole simulation state: the segment chain (head first), the food set,
/// the recorded last tail cell, the pending growth signals of the current
/// frame, the identity counter, and the two independent timers.
pub struct GameState {
    /// Direction the head travels on the next movement tick.
    pub head_direction: Direction,
    /// The segment chain; index 0 is always the head. Only ever appended to.
    pub segments: Vec<Segment>,
    /// All live food items, in spawn order.
    pub foods: Vec<Food>,
    /// The cell the tail vacated on the most recent movement tick; `None`
    /// until the first tick has fired.
    pub last_tail_position: Option<Position>,
    /// Growth signals raised by collisions in the current frame; the growth
    /// pass consumes one and drops the rest.
    pub pending_growth: u64,
    /// The next unused identity; every live segment or food id lies below it.
    pub next_id: u64,
    /// Timer gating the movement tick.
    pub movement_timer: TickTimer,
    /// Timer gating the food spawner.
    pub food_timer: TickTimer,
}

impl GameState {
    /// Well-formedness: both timers are well formed, the chain is never
    /// empty, every identity is below the counter, and no two live entities
    /// share an identity.
    pub open spec fn wf(self) -> bool {
        &&& self.movement_timer.wf()
        &&& self.food_timer.wf()
        &&& self.segments@.len() >= 1
        &&& forall|i: int|
            0 <= i < self.segments@.len() ==> (#[trigger] self.segments@[i]).id < self.next_id
        &&& forall|i: int|
            0 <= i < self.foods@.len() ==> (#[trigger] self.foods@[i]).id < self.next_id
        &&& forall|i: int, j: int|
            0 <= i < j < self.segments@.len() ==> (#[trigger] self.segments@[i]).id != (
            #[trigger] self.segments@[j]).id
        &&& forall|i: int, j: int|
            0 <= i < j < self.foods@.len() ==> (#[trigger] self.foods@[i]).id != (
            #[trigger] self.foods@[j]).id
        &&& forall|i: int, j: int|
            0 <= i < self.segments@.len() && 0 <= j < self.foods@.len() ==> (
            #[trigger] self.segments@[i]).id != (#[trigger] self.foods@[j]).id
    }

    /// The cell the head occupies.
    pub open spec fn head_pos(self) -> Position {
        self.segments@[0].pos
    }

    /// The chain's cells as integer coordinate pairs, head first.
    pub open spec fn chain_coords(self) -> Seq<(int, int)> {
        self.segments@.map_values(|s: Segment| (s.pos.x as int, s.pos.y as int))
    }

    /// The initial state: a chain of exactly two segments, the head at
    /// (3, 3) travelling Up and one body segment at (3, 2); no food, no
    /// recorded tail cell, no pending signals, both timers fresh.
    pub fn spawn_snake() -> (s: GameState)
        ensures
            s.wf(),
            s.head_direction == Direction::Up,
            s.segments@.len() == 2,
            s.segments@[0].pos == (Position { x: 3, y: 3 }),
            s.segments@[1].pos == (Position { x: 3, y: 2 }),
            s.foods@.len() == 0,
            s.last_tail_position is None,
            s.pending_growth == 0,
            s.segments@[0].id == 0,
            s.segments@[1].id == 1,
            s.next_id == 2,
            s.movement_timer.interval_ms == MOVEMENT_INTERVAL_MS,
            s.movement_timer.elapsed_ms == 0,
            s.food_timer.interval_ms == FOOD_SPAWN_INTERVAL_MS,
            s.food_timer.elapsed_ms == 0,
    {
        let head = Segment { id: 0, pos: Position { x: 3, y: 3 } };
        let mut s = GameState {
            head_direction: Direction::Up,
            segments: vec![head],
            foods: Vec::new(),
            last_tail_position: None,
            pending_growth: 0,
            next_id: 1,
            movement_timer: TickTimer::new(MOVEMENT_INTERVAL_MS),
            food_timer: TickTimer::new(FOOD_SPAWN_INTERVAL_MS),
        };
        s.spawn_snake_segment(Position { x: 3, y: 2 });
        s
    }

    /// Appends one new segment with a fresh identity at `position` and
    /// returns its identity.
    pub fn spawn_snake_segment(&mut self, position: Position) -> (id: u64)
        requires
            old(self).wf(),
            old(self).next_id < u64::MAX,
        ensures
            final(self).wf(),
            id == old(self).next_id,
            final(self).segments@ == old(self).segments@.push(
                (Segment { id: old(self).next_id, pos: position }),
            ),
            final(self).next_id == old(self).next_id + 1,
            final(self).head_direction == old(self).head_direction,
            final(self).foods == old(self).foods,
            final(self).last_tail_position == old(self).last_tail_position,
            final(self).pending_growth == old(self).pending_growth,
            final(self).movement_timer == old(self).movement_timer,
            final(self).food_timer == old(self).food_timer,
    {
        let id: u64 = self.next_id;
        self.next_id = self.next_id + 1;
        self.segments.push(Segment { id, pos: position });
        id
    }

    /// One input-resolution pass: reads which of the four movement keys are
    /// held, picks the candidate by the priority order Left > Down > Up >
    /// Right (the current direction if none is held), and adopts it unless
    /// it would reverse the current direction. Runs strictly before the
    /// movement tick of the same frame, so a same-tick reversal is rejected
    /// against the pre-move direction.
    pub fn snake_movement_input(&mut self, left: bool, down: bool, up: bool, right: bool)
        requires
            old(self).wf(),
        ensures
            final(self).wf(),
            final(self).head_direction == resolved_direction(
                left,
                down,
                up,
                right,
                old(self).head_direction,
            ),
            final(self).segments == old(self).segments,
            final(self).foods == old(self).foods,
            final(self).last_tail_position == old(self).last_tail_position,
            final(self).pending_growth == old(self).pending_growth,
            final(self).next_id == old(self).next_id,
            final(self).movement_timer == old(self).movement_timer,
            final(self).food_timer == old(self).food_timer,
    {
        let dir: Direction = if left {
            Direction::Left
        } else if down {
            Direction::Down
        } else if up {
            Direction::Up
        } else if right {
            Direction::Right
        } else {
            self.head_direction
        };
        if dir != self.head_direction.opposite() {
            self.head_direction = dir;
        }
    }

    /// One movement pass: advances the movement timer by `delta_ms` and, when
    /// the tick fires, moves the head one cell along its direction, shifts
    /// every trailing segment to the cell its predecessor held before the
    /// tick, and records the cell the tail vacated. Returns whether the tick
    /// fired; until it does, only the timer changes.
    pub fn snake_movement(&mut self, delta_ms: u64) -> (fired: bool)
        requires
            old(self).wf(),
            old(self).movement_timer.elapsed_ms + delta_ms <= u64::MAX,
            old(self).movement_timer.fires(delta_ms) ==> can_step(
                old(self).head_pos(),
                old(self).head_direction,
            ),
        ensures
            final(self).wf(),
            fired == old(self).movement_timer.fires(delta_ms),
            final(self).movement_timer.interval_ms == old(self).movement_timer.interval_ms,
            final(self).movement_timer.elapsed_ms == if fired {
                0u64
            } else {
                (old(self).movement_timer.elapsed_ms + delta_ms) as u64
            },
            final(self).head_direction == old(self).head_direction,
            final(self).foods == old(self).foods,
            final(self).pending_growth == old(self).pending_growth,
            final(self).next_id == old(self).next_id,
            final(self).food_timer == old(self).food_timer,
            final(self).segments@.len() == old(self).segments@.len(),
            forall|k: int|
                0 <= k < old(self).segments@.len() ==> final(self).segments@[k].id == old(
                    self,
                ).segments@[k].id,
            fired ==> final(self).chain_coords() == shift_chain(
                old(self).chain_coords(),
                old(self).head_direction,
            ),
            fired ==> final(self).head_pos().x == old(self).head_pos().x + dx(
                old(self).head_direction,
            ) && final(self).head_pos().y == old(self).head_pos().y + dy(
                old(self).head_direction,
            ),
            fired ==> forall|k: int|
                1 <= k < old(self).segments@.len() ==> final(self).segments@[k].pos == old(
                    self,
                ).segments@[k - 1].pos,
            fired ==> final(self).last_tail_position == Some(
                old(self).segments@[old(self).segments@.len() - 1].pos,
            ),
            !fired ==> final(self).segments == old(self).segments
                && final(self).last_tail_position == old(self).last_tail_position,
    {
        let fired = self.movement_timer.tick(delta_ms);
        if !fired {
            return false;
        }
        let ghost os = *old(self);
        let n: usize = self.segments.len();

        // Snapshot the pre-move cell of every segment, in chain order.
        let mut prev: Vec<Position> = Vec::new();
        let mut i: usize = 0;
        while i < n
            invariant
                n == self.segments@.len(),
                i <= n,
                prev@.len() == i,
                forall|k: int| 0 <= k < i ==> prev@[k] == self.segments@[k].pos,
            decreases n - i,
        {
            prev.push(self.segments[i].pos);
            i = i + 1;
        }

        // Move only the head along its direction.
        let head = self.segments[0];
        let new_head = Segment { id: head.id, pos: head.pos.step(self.head_direction) };
        self.segments.set(0, new_head);

        // Each trailing segment takes the cell its predecessor held before
        // this tick, so the head's new cell never propagates within a tick.
        let mut i: usize = 1;
        while i < n
            invariant
                n == self.segments@.len(),
                n == os.segments@.len(),
                n == prev@.len(),
                1 <= i <= n,
                forall|k: int| 0 <= k < n ==> prev@[k] == os.segments@[k].pos,
                self.segments@[0].id == os.segments@[0].id,
                can_step(os.head_pos(), os.head_direction),
                self.segments@[0].pos.x == os.head_pos().x + dx(os.head_direction),
                self.segments@[0].pos.y == os.head_pos().y + dy(os.head_direction),
                forall|k: int|
                    1 <= k < i ==> (#[trigger] self.segments@[k]).id == os.segments@[k].id
                        && self.segments@[k].pos == os.segments@[k - 1].pos,
                forall|k: int| i <= k < n ==> self.segments@[k] == os.segments@[k],
                self.head_direction == os.head_direction,
                self.foods == os.foods,
                self.pending_growth == os.pending_growth,
                self.next_id == os.next_id,
                self.food_timer == os.food_timer,
                self.last_tail_position == os.last_tail_position,
                self.movement_timer.interval_ms == os.movement_timer.interval_ms,
                self.movement_timer.elapsed_ms == 0,
                os.wf(),
            decreases n - i,
        {
            let seg = self.segments[i];
            self.segments.set(i, Segment { id: seg.id, pos: prev[i - 1] });
            i = i + 1;
        }

        self.last_tail_position = Some(prev[n - 1]);

        proof {
            assert(self.chain_coords() =~= shift_chain(os.chain_coords(), os.head_direction));
        }
        true
    }

    /// One collision pass: compares the head's cell against every food item,
    /// removes each item that shares it, and raises one growth signal per
    /// removed item. Runs every frame, not gated by a timer.
    pub fn snake_eating(&mut self)
        requires
            old(self).wf(),
            old(self).pending_growth + old(self).foods@.len() <= u64::MAX,
        ensures
            final(self).wf(),
            final(self).foods@ == old(self).foods@.filter(survives(old(self).head_pos())),
            final(self).pending_growth == old(self).pending_growth + old(self).foods@.len()
                - final(self).foods@.len(),
            final(self).segments == old(self).segments,
            final(self).head_direction == old(self).head_direction,
            final(self).last_tail_position == old(self).last_tail_position,
            final(self).next_id == old(self).next_id,
            final(self).movement_timer == old(self).movement_timer,
            final(self).food_timer == old(self).food_timer,
    {
        let ghost os = *old(self);
        let ghost hp = os.head_pos();
        let head_pos = self.segments[0].pos;
        let n: usize = self.foods.len();
        let mut kept: Vec<Food> = Vec::new();
        let mut i: usize = 0;
        proof {
            reveal_with_fuel(Seq::filter, 1);
            assert(os.foods@.take(0).filter(survives(hp)) =~= kept@);
        }
        while i < n
            invariant
                os.wf(),
                n == self.foods@.len(),
                self.foods == os.foods,
                i <= n,
                hp == os.head_pos(),
                head_pos == hp,
                kept@ == os.foods@.take(i as int).filter(survives(hp)),
                kept@.len() <= i,
                forall|a: int|
                    0 <= a < kept@.len() ==> forall|k: int|
                        i <= k < n ==> (#[trigger] kept@[a]).id != (#[trigger] os.foods@[k]).id,
                forall|a: int|
                    0 <= a < kept@.len() ==> (#[trigger] kept@[a]).id < os.next_id,
                forall|a: int, b: int|
                    0 <= a < b < kept@.len() ==> (#[trigger] kept@[a]).id != (
                    #[trigger] kept@[b]).id,
                forall|a: int, j: int|
                    0 <= a < kept@.len() && 0 <= j < os.segments@.len() ==> (
                    #[trigger] kept@[a]).id != (#[trigger] os.segments@[j]).id,
            decreases n - i,
        {
            let f = self.foods[i];
            proof {
                reveal_with_fuel(Seq::filter, 2);
                assert(os.foods@.take(i + 1).drop_last() =~= os.foods@.take(i as int));
                assert(os.foods@.take(i + 1).last() == os.foods@[i as int]);
            }
            if !(f.pos == head_pos) {
                kept.push(f);
            }
            i = i + 1;
        }
        proof {
            assert(os.foods@.take(n as int) =~= os.foods@);
        }
        let removed: usize = n - kept.len();
        self.pending_growth = self.pending_growth + removed as u64;
        self.foods = kept;
    }

    /// One growth pass: if at least one growth signal is pending, consumes
    /// exactly one — the rest of the batch is silently dropped — and appends
    /// one new segment at the recorded last tail cell. A pending signal
    /// before any movement tick has recorded that cell is an invariant
    /// violation and is rejected as an error, with the chain unchanged.
    pub fn snake_growth(&mut self) -> (r: Result<(), GrowthError>)
        requires
            old(self).wf(),
            old(self).next_id < u64::MAX,
        ensures
            final(self).wf(),
            final(self).pending_growth == 0,
            final(self).head_direction == old(self).head_direction,
            final(self).foods == old(self).foods,
            final(self).last_tail_position == old(self).last_tail_position,
            final(self).movement_timer == old(self).movement_timer,
            final(self).food_timer == old(self).food_timer,
            old(self).pending_growth == 0 ==> r == Ok::<(), GrowthError>(())
                && final(self).segments == old(self).segments
                && final(self).next_id == old(self).next_id,
            old(self).pending_growth > 0 && old(self).last_tail_position is Some ==> {
                &&& r == Ok::<(), GrowthError>(())
                &&& final(self).segments@.len() == old(self).segments@.len() + 1
                &&& final(self).segments@.subrange(0, old(self).segments@.len() as int) == old(
                    self,
                ).segments@
                &&& Some(final(self).segments@.last().pos) == old(self).last_tail_position
                &&& final(self).segments@.last().id == old(self).next_id
                &&& final(self).next_id == old(self).next_id + 1
            },
            old(self).pending_growth > 0 && old(self).last_tail_position is None ==> r == Err::<
                (),
                GrowthError,
            >(GrowthError::NoTailRecorded) && final(self).segments == old(self).segments
                && final(self).next_id == old(self).next_id,
    {
        let had_signal = self.pending_growth > 0;
        self.pending_growth = 0;
        if !had_signal {
            return Ok(());
        }
        match self.last_tail_position {
            None => Err(GrowthError::NoTailRecorded),
            Some(p) => {
                let ghost pre = self.segments@;
                self.spawn_snake_segment(p);
                proof {
                    assert(self.segments@.subrange(0, pre.len() as int) =~= pre);
                }
                Ok(())
            },
        }
    }

    /// One food-spawner pass: advances the spawner timer by `delta_ms` and,
    /// when its tick fires, creates one food item with a fresh identity at a
    /// uniformly random arena cell. Neither existing food nor the snake's
    /// body is checked for occupancy. Returns whether a food item spawned.
    pub fn food_spawner(&mut self, delta_ms: u64) -> (spawned: bool)
        requires
            old(self).wf(),
            old(self).food_timer.elapsed_ms + delta_ms <= u64::MAX,
            old(self).next_id < u64::MAX,
        ensures
            final(self).wf(),
            spawned == old(self).food_timer.fires(delta_ms),
            final(self).food_timer.interval_ms == old(self).food_timer.interval_ms,
            final(self).food_timer.elapsed_ms == if spawned {
                0u64
            } else {
                (old(self).food_timer.elapsed_ms + delta_ms) as u64
            },
            final(self).segments == old(self).segments,
            final(self).head_direction == old(self).head_direction,
            final(self).last_tail_position == old(self).last_tail_position,
            final(self).pending_growth == old(self).pending_growth,
            final(self).movement_timer == old(self).movement_timer,
            spawned ==> {
                &&& final(self).foods@.len() == old(self).foods@.len() + 1
                &&& final(self).foods@.subrange(0, old(self).foods@.len() as int) == old(
                    self,
                ).foods@
                &&& in_arena(final(self).foods@.last().pos)
                &&& final(self).foods@.last().id == old(self).next_id
                &&& final(self).next_id == old(self).next_id + 1
            },
            !spawned ==> final(self).foods == old(self).foods
                && final(self).next_id == old(self).next_id,
    {
        let fired = self.food_timer.tick(delta_ms);
        if !fired {
            return false;
        }
        let ghost pre = self.foods@;
        let x: u32 = random_below(ARENA_WIDTH);
        let y: u32 = random_below(ARENA_HEIGHT);
        let pos = Position { x: x as i32, y: y as i32 };
        let id: u64 = self.next_id;
        self.next_id = self.next_id + 1;
        self.foods.push(Food { id, pos });
        proof {
            assert(self.foods@.subrange(0, pre.len() as int) =~= pre);
        }
        true
    }

    /// One whole frame, in the fixed deterministic order: input resolution,
    /// then the movement tick check, then collision detection, then growth
    /// consumption, then the food-spawner tick check. Input is resolved
    /// strictly before movement, and growth always sees the tail cell
    /// recorded by this or an earlier tick. The chain never shrinks.
    #[verifier::rlimit(100)]
    pub fn frame(&mut self, delta_ms: u64, left: bool, down: bool, up: bool, right: bool) -> (r:
        Result<(), GrowthError>)
        requires
            old(self).wf(),
            old(self).movement_timer.elapsed_ms + delta_ms <= u64::MAX,
            old(self).food_timer.elapsed_ms + delta_ms <= u64::MAX,
            old(self).pending_growth + old(self).foods@.len() <= u64::MAX,
            old(self).next_id + 2 <= u64::MAX,
            old(self).movement_timer.fires(delta_ms) ==> can_step(
                old(self).head_pos(),
                resolved_direction(left, down, up, right, old(self).head_direction),
            ),
        ensures
            final(self).wf(),
            final(self).pending_growth == 0,
            final(self).segments@.len() >= old(self).segments@.len(),
            final(self).movement_timer.interval_ms == old(self).movement_timer.interval_ms,
            final(self).food_timer.interval_ms == old(self).food_timer.interval_ms,
            ({
                let dir = resolved_direction(left, down, up, right, old(self).head_direction);
                let moved = old(self).movement_timer.fires(delta_ms);
                let hp0 = old(self).head_pos();
                let hp = (Position {
                    x: (hp0.x + if moved {
                        dx(dir)
                    } else {
                        0
                    }) as i32,
                    y: (hp0.y + if moved {
                        dy(dir)
                    } else {
                        0
                    }) as i32,
                });
                let tail_after = if moved {
                    Some(old(self).segments@.last().pos)
                } else {
                    old(self).last_tail_position
                };
                let foods_after = old(self).foods@.filter(survives(hp));
                let signals = old(self).pending_growth + old(self).foods@.len()
                    - foods_after.len();
                let spawned = old(self).food_timer.fires(delta_ms);
                let grew = signals > 0 && tail_after is Some;
                &&& final(self).head_direction == dir
                &&& final(self).head_pos() == hp
                &&& final(self).segments@.len() == old(self).segments@.len() + if grew {
                    1int
                } else {
                    0int
                }
                &&& forall|k: int|
                    0 <= k < old(self).segments@.len() ==> (
                    #[trigger] final(self).segments@[k]).id == old(self).segments@[k].id
                &&& moved ==> forall|k: int|
                    1 <= k < old(self).segments@.len() ==> (
                    #[trigger] final(self).segments@[k]).pos == old(self).segments@[k - 1].pos
                &&& !moved ==> forall|k: int|
                    0 <= k < old(self).segments@.len() ==> (
                    #[trigger] final(self).segments@[k]).pos == old(self).segments@[k].pos
                &&& grew ==> Some(final(self).segments@.last().pos) == tail_after
                &&& final(self).last_tail_position == tail_after
                &&& r == if signals > 0 && tail_after is None {
                    Err::<(), GrowthError>(GrowthError::NoTailRecorded)
                } else {
                    Ok::<(), GrowthError>(())
                }
                &&& final(self).foods@.len() == foods_after.len() + if spawned {
                    1int
                } else {
                    0int
                }
                &&& final(self).foods@.subrange(0, foods_after.len() as int) == foods_after
                &&& spawned ==> in_arena(final(self).foods@.last().pos)
            }),
    {
        let ghost s0 = *old(self);
        let ghost dir = resolved_direction(left, down, up, right, s0.head_direction);
        let ghost moved = s0.movement_timer.fires(delta_ms);
        let ghost hp = (Position {
            x: (s0.head_pos().x + if moved {
                dx(dir)
            } else {
                0
            }) as i32,
            y: (s0.head_pos().y + if moved {
                dy(dir)
            } else {
                0
            }) as i32,
        });
        self.snake_movement_input(left, down, up, right);
        self.snake_movement(delta_ms);
        proof {
            assert(self.head_pos() == hp);
            assert(self.last_tail_position == if moved {
                Some(s0.segments@.last().pos)
            } else {
                s0.last_tail_position
            });
        }
        self.snake_eating();
        proof {
            assert(self.foods@ == s0.foods@.filter(survives(hp)));
            assert(self.pending_growth == s0.pending_growth + s0.foods@.len() - self.foods@.len());
        }
        let ghost tail_after = if moved {
            Some(s0.segments@.last().pos)
        } else {
            s0.last_tail_position
        };
        let ghost foods_after = s0.foods@.filter(survives(hp));
        let ghost signals = s0.pending_growth + s0.foods@.len() - foods_after.len();
        let ghost s2 = *self;
        let r = self.snake_growth();
        let ghost grew = signals > 0 && tail_after is Some;
        proof {
            assert(self.segments@.len() == s0.segments@.len() + if grew {
                1int
            } else {
                0int
            });
            if grew {
                assert(self.segments@.subrange(0, s2.segments@.len() as int) == s2.segments@);
                assert forall|k: int| 0 <= k < s0.segments@.len() implies (
                #[trigger] self.segments@[k]).id == s0.segments@[k].id by {
                    assert(self.segments@[k] == s2.segments@[k]);
                }
            }
            assert(r == if signals > 0 && tail_after is None {
                Err::<(), GrowthError>(GrowthError::NoTailRecorded)
            } else {
                Ok::<(), GrowthError>(())
            });
        }
        let ghost s3 = *self;
        self.food_spawner(delta_ms);
        proof {
            assert(self.segments == s3.segments);
            assert(self.foods@.len() == foods_after.len() + if s0.food_timer.fires(delta_ms) {
                1int
            } else {
                0int
            });
            assert(self.foods@.subrange(0, foods_after.len() as int) == foods_after);
        }
        r
    }

    /// Read-only snapshot of the chain's cells, head first, for a render
    /// sink.
    pub fn segment_positions(&self) -> (r: Vec<Position>)
        ensures
            r@.len() == self.segments@.len(),
            forall|k: int| 0 <= k < r@.len() ==> r@[k] == self.segments@[k].pos,
    {
        let mut r: Vec<Position> = Vec::new();
        let mut i: usize = 0;
        while i < self.segments.len()
            invariant
                i <= self.segments@.len(),
                r@.len() == i,
                forall|k: int| 0 <= k < i ==> r@[k] == self.segments@[k].pos,
            decreases self.segments@.len() - i,
        {
            r.push(self.segments[i].pos);
            i = i + 1;
        }
        r
    }

    /// Read-only snapshot of the food cells, in spawn order, for a render
    /// sink.
    pub fn food_positions(&self) -> (r: Vec<Position>)
        ensures
            r@.len() == self.foods@.len(),
            forall|k: int| 0 <= k < r@.len() ==> r@[k] == self.foods@[k].pos,
    {
        let mut r: Vec<Position> = Vec::new();
        let mut i: usize = 0;
        while i < self.foods.len()
            invariant
                i <= self.foods@.len(),
                r@.len() == i,
                forall|k: int| 0 <= k < i ==> r@[k] == self.foods@[k].pos,
            decreases self.foods@.len() - i,
        {
            r.push(self.foods[i].pos);
            i = i + 1;
        }
        r
    }
}

/// Relies on rand's `random_range` over `0..n`: a draw from the thread-local
/// generator of a value in the given range, so always below `n`; the call
/// panics only on an empty range, which `n > 0` rules out.
#[verifier::external_body]
fn random_below(n: u32) -> (r: u32)
    requires
        n > 0,
    ensures
        r < n,
{
    rand::random_range(0..n)
}

} // verus!
