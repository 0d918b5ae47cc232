//! The simulation: owns the actor, the moving objects, the goal slots, lives
//! and score, and advances the world one tick at a time.

use vstd::prelude::*;

use crate::frog::at_start;
use crate::frog::frog_calm;
use crate::frog::frog_is;
use crate::frog::Frog;
use crate::geom::check_collision_recs;
use crate::goal::all_occupied;
use crate::goal::lemma_occ_count_bounds;
use crate::goal::lemma_occ_count_claim;
use crate::goal::lemma_occ_count_zero;
use crate::goal::occ_count;
use crate::goal::GoalSlot;
use crate::lane::river_row;
use crate::lane::road_row;
use crate::object::dir_sign;
use crate::object::Direction;
use crate::object::MovingObject;
use crate::object::ObjColor;
use crate::rng::rand_in_range;
use crate::CELL_MP;
use crate::FROG_MAX_X_MP;
use crate::GOAL_COUNT;
use crate::GOAL_NEAR_MP;
use crate::GRID_COLS;
use crate::HALF_CELL_MP;
use crate::INITIAL_LIVES;
use crate::MAX_DT_MS;
use crate::MAX_SPEED_PX_S;
use crate::RIVER_END;
use crate::RIVER_START;
use crate::ROAD_END;
use crate::ROAD_START;
use crate::SCREEN_W_MP;

verus! {

/// The whole game: actor, hazards, platforms, goal slots and bookkeeping.
pub struct GameState {
    pub frog: Frog,
    /// Road hazards, grouped lane by lane.
    pub cars: Vec<MovingObject>,
    /// River platforms, grouped lane by lane.
    pub logs: Vec<MovingObject>,
    /// The five goal slots of the top row.
    pub goals: Vec<GoalSlot>,
    /// Lives left; the game is lost when this reaches zero.
    pub lives: i64,
    /// One hundred points per claimed goal slot.
    pub score: i64,
    /// Set once, either by losing the last life or by winning.
    pub game_over: bool,
    /// Set exactly when every goal slot is claimed.
    pub won: bool,
}

/// `post` is `pre` slid along its row for `dt` milliseconds and wrapped;
/// every other field is untouched.
pub open spec fn advances_to(pre: MovingObject, post: MovingObject, dt: int) -> bool {
    &&& post.x == pre.stepped_x(dt)
    &&& post.row == pre.row
    &&& post.width == pre.width
    &&& post.speed == pre.speed
    &&& post.direction == pre.direction
    &&& post.color == pre.color
}

/// Every object of `post` is the corresponding object of `pre`, advanced.
pub open spec fn objs_advance(pre: Seq<MovingObject>, post: Seq<MovingObject>, dt: int) -> bool {
    &&& post.len() == pre.len()
    &&& forall|i: int| 0 <= i < pre.len() ==> advances_to(pre[i], #[trigger] post[i], dt)
}

/// The object, advanced by `dt`, shares the actor's row and its box overlaps
/// the actor's cell.
pub open spec fn touches_adv(o: MovingObject, f: Frog, dt: int) -> bool {
    &&& o.row == f.row
    &&& f.pixel_x() < o.stepped_x(dt) + o.width_mp()
    &&& o.stepped_x(dt) < f.pixel_x() + CELL_MP
}

/// Some advanced hazard runs the actor over this tick.
pub open spec fn car_kills(pre: GameState, dt: int) -> bool {
    &&& road_row(pre.frog.row as int)
    &&& exists|i: int|
        0 <= i < pre.cars@.len() && touches_adv(#[trigger] pre.cars@[i], pre.frog, dt)
}

/// The advanced platform at index `i` carries the actor this tick.
pub open spec fn log_touch(pre: GameState, dt: int, i: int) -> bool {
    &&& 0 <= i < pre.logs@.len()
    &&& touches_adv(pre.logs@[i], pre.frog, dt)
}

/// How far a platform carries its rider in `dt` milliseconds, in
/// milli-pixels, with the platform's own sign.
pub open spec fn ride_delta(o: MovingObject, dt: int) -> int {
    dir_sign(o.direction) * (o.speed * dt)
}

/// What losing a life does to everything but the actor: one life less, score
/// and slots untouched; the game ends exactly when the last life goes, and
/// otherwise the actor is reset to the start cell.
pub open spec fn kill_core(pre: GameState, post: GameState) -> bool {
    &&& post.lives == pre.lives - 1
    &&& post.score == pre.score
    &&& post.goals@ =~= pre.goals@
    &&& post.won == pre.won
    &&& (pre.lives <= 1 ==> post.game_over)
    &&& (pre.lives > 1 ==> post.game_over == pre.game_over && at_start(post.frog))
}

/// Outcome of a tick that finds the actor in the river on the first carrying
/// platform, index `i`: the actor rides it, gaining the platform's drift; if
/// that drift has pushed the actor off screen, it costs a life instead.
pub open spec fn ride_outcome(pre: GameState, post: GameState, dt: int, i: int) -> bool {
    &&& log_touch(pre, dt, i)
    &&& (forall|j: int| 0 <= j < i ==> !log_touch(pre, dt, j))
    &&& {
        let off2 = pre.frog.riding_offset + ride_delta(pre.logs@[i], dt);
        let px2 = pre.frog.col * CELL_MP + off2;
        if px2 < 0 || px2 > FROG_MAX_X_MP {
            &&& kill_core(pre, post)
            &&& (pre.lives <= 1 ==> frog_is(
                post.frog,
                pre.frog.col as int,
                pre.frog.row as int,
                off2,
                true,
            ))
        } else {
            &&& frog_is(post.frog, pre.frog.col as int, pre.frog.row as int, off2, true)
            &&& post.lives == pre.lives
            &&& post.score == pre.score
            &&& post.goals@ =~= pre.goals@
            &&& post.game_over == pre.game_over
            &&& post.won == pre.won
        }
    }
}

/// Pixel center of a goal slot, in milli-pixels.
pub open spec fn slot_center(g: GoalSlot) -> int {
    g.col * CELL_MP + HALF_CELL_MP
}

/// The slot is unclaimed and the actor's center is strictly within the claim
/// threshold of the slot's center.
pub open spec fn claimable(g: GoalSlot, center: int) -> bool {
    &&& !g.occupied
    &&& {
        let d = if center >= slot_center(g) {
            center - slot_center(g)
        } else {
            slot_center(g) - center
        };
        d < GOAL_NEAR_MP
    }
}

/// A claim lands on slot `k`: the first claimable slot in index order. The
/// slot is marked, the score rises by one hundred, the actor returns to the
/// start cell, and the game is won exactly when every slot is now claimed.
pub open spec fn goal_claim_at(pre: GameState, post: GameState, center: int, k: int) -> bool {
    &&& 0 <= k < pre.goals@.len()
    &&& claimable(pre.goals@[k], center)
    &&& (forall|j: int| 0 <= j < k ==> !claimable(#[trigger] pre.goals@[j], center))
    &&& post.goals@.len() == pre.goals@.len()
    &&& post.goals@[k].col == pre.goals@[k].col
    &&& post.goals@[k].occupied
    &&& (forall|j: int|
        0 <= j < pre.goals@.len() && j != k ==> post.goals@[j] == #[trigger] pre.goals@[j])
    &&& post.score == pre.score + 100
    &&& at_start(post.frog)
    &&& post.lives == pre.lives
    &&& (all_occupied(post.goals@) ==> post.won && post.game_over)
    &&& (!all_occupied(post.goals@) ==> post.won == pre.won && post.game_over == pre.game_over)
}

/// What reaching the goal row does: a claim on the first claimable slot if
/// one is within reach of the actor's center, else a missed landing that
/// costs a life. `kc`, `kr`, `ko`, `kg` describe the actor as it stood at the
/// miss, for the case where the last life goes and the actor stays in place.
pub open spec fn goal_rel(
    pre: GameState,
    post: GameState,
    center: int,
    kc: int,
    kr: int,
    ko: int,
    kg: bool,
) -> bool {
    if exists|k: int| 0 <= k < pre.goals@.len() && claimable(#[trigger] pre.goals@[k], center) {
        exists|k: int| goal_claim_at(pre, post, center, k)
    } else {
        &&& kill_core(pre, post)
        &&& (pre.lives <= 1 ==> frog_is(post.frog, kc, kr, ko, kg))
    }
}

/// The fixed shape of the goal track: five slots, evenly spaced at columns
/// three, six, nine, twelve and fifteen.
pub open spec fn goals_shape(s: Seq<GoalSlot>) -> bool {
    &&& s.len() == GOAL_COUNT
    &&& forall|i: int| 0 <= i < s.len() ==> (#[trigger] s[i]).col == 3 * (i + 1)
}

/// How many objects of the sequence sit in row `r`.
pub open spec fn row_count(s: Seq<MovingObject>, r: int) -> int
    decreases s.len(),
{
    if s.len() == 0 {
        0
    } else {
        row_count(s.drop_last(), r) + if s.last().row == r {
            1 as int
        } else {
            0 as int
        }
    }
}

/// Appending one object raises its own row's count by one and no other's.
pub proof fn lemma_row_count_push(s: Seq<MovingObject>, o: MovingObject, r: int)
    ensures
        row_count(s.push(o), r) == row_count(s, r) + if o.row == r {
            1 as int
        } else {
            0 as int
        },
{
    assert(s.push(o).drop_last() =~= s);
}

/// The `k`-th of `n` objects spawned for one lane lies strictly within
/// `jitter` milli-pixels of its even-spacing position `k * (screen width / n)`.
pub open spec fn near_even_spacing(x: int, k: int, n: int, jitter: int) -> bool {
    k * (SCREEN_W_MP as int / n) - jitter <= x < k * (SCREEN_W_MP as int / n) + jitter
}

/// The objects of row `r` are exactly one contiguous batch of `n` objects
/// starting at index `lo`, spread evenly across the screen up to jitter.
pub open spec fn lane_batch_at(
    s: Seq<MovingObject>,
    r: int,
    jitter: int,
    lo: int,
    n: int,
) -> bool {
    &&& 0 <= lo
    &&& lo + n <= s.len()
    &&& 2 <= n <= 3
    &&& (forall|j: int| 0 <= j < s.len() ==> ((#[trigger] s[j]).row == r <==> lo <= j < lo + n))
    &&& (forall|j: int|
        lo <= j < lo + n ==> near_even_spacing((#[trigger] s[j]).x as int, j - lo, n, jitter))
}

/// Row `r`'s objects form one evenly spaced batch, up to jitter.
pub open spec fn lane_spaced(s: Seq<MovingObject>, r: int, jitter: int) -> bool {
    exists|lo: int, n: int| lane_batch_at(s, r, jitter, lo, n)
}

/// The fixed per-lane configuration of a road hazard: its row pins width,
/// speed, direction and hue; its left edge lies within jitter of the screen.
pub open spec fn car_lane_shape(o: MovingObject) -> bool {
    &&& o.wf()
    &&& road_row(o.row as int)
    &&& -20_000 <= o.x <= SCREEN_W_MP
    &&& (o.row == 7 ==> o.width == 2 && o.speed == 80 && o.direction == Direction::Left
        && o.color == ObjColor::Red)
    &&& (o.row == 8 ==> o.width == 3 && o.speed == 100 && o.direction == Direction::Right
        && o.color == ObjColor::Yellow)
    &&& (o.row == 9 ==> o.width == 2 && o.speed == 70 && o.direction == Direction::Left
        && o.color == ObjColor::Blue)
    &&& (o.row == 10 ==> o.width == 4 && o.speed == 120 && o.direction == Direction::Right
        && o.color == ObjColor::Purple)
    &&& (o.row == 11 ==> o.width == 2 && o.speed == 90 && o.direction == Direction::Left
        && o.color == ObjColor::Orange)
    &&& (o.row == 12 ==> o.width == 3 && o.speed == 60 && o.direction == Direction::Right
        && o.color == ObjColor::Maroon)
}

/// The fixed per-lane configuration of a river platform.
pub open spec fn log_lane_shape(o: MovingObject) -> bool {
    &&& o.wf()
    &&& river_row(o.row as int)
    &&& -30_000 <= o.x <= SCREEN_W_MP
    &&& o.color == ObjColor::Brown
    &&& (o.row == 1 ==> o.width == 4 && o.speed == 50 && o.direction == Direction::Right)
    &&& (o.row == 2 ==> o.width == 3 && o.speed == 70 && o.direction == Direction::Left)
    &&& (o.row == 3 ==> o.width == 5 && o.speed == 40 && o.direction == Direction::Right)
    &&& (o.row == 4 ==> o.width == 3 && o.speed == 60 && o.direction == Direction::Left)
    &&& (o.row == 5 ==> o.width == 4 && o.speed == 55 && o.direction == Direction::Right)
}

/// The freshly generated lane field: every object matches its lane's fixed
/// configuration, every lane holds two or three objects, and each lane's
/// objects are spread evenly across the screen up to the lane kind's jitter.
pub open spec fn lanes_ok(s: GameState) -> bool {
    &&& (forall|i: int| 0 <= i < s.cars@.len() ==> car_lane_shape(#[trigger] s.cars@[i]))
    &&& (forall|i: int| 0 <= i < s.logs@.len() ==> log_lane_shape(#[trigger] s.logs@[i]))
    &&& 12 <= s.cars@.len() <= 18
    &&& 10 <= s.logs@.len() <= 15
    &&& (forall|r: int| road_row(r) ==> 2 <= #[trigger] row_count(s.cars@, r) <= 3)
    &&& (forall|r: int| river_row(r) ==> 2 <= #[trigger] row_count(s.logs@, r) <= 3)
    &&& (forall|r: int| road_row(r) ==> #[trigger] lane_spaced(s.cars@, r, 20_000))
    &&& (forall|r: int| river_row(r) ==> #[trigger] lane_spaced(s.logs@, r, 30_000))
}

/// A game as `new` and `reset` leave it: actor at the start, full lives, no
/// score, running, every slot unclaimed, lanes freshly generated.
pub open spec fn fresh_game(s: GameState) -> bool {
    &&& at_start(s.frog)
    &&& s.lives == INITIAL_LIVES
    &&& s.score == 0
    &&& !s.game_over
    &&& !s.won
    &&& goals_shape(s.goals@)
    &&& (forall|i: int| 0 <= i < s.goals@.len() ==> !(#[trigger] s.goals@[i]).occupied)
    &&& lanes_ok(s)
}

/// Spawns one lane: two or three objects of the given configuration, spread
/// across the screen with a random jitter of less than `jitter` milli-pixels
/// around even spacing, appended to `v`.
fn spawn_lane(
    v: &mut Vec<MovingObject>,
    row: i64,
    width: i64,
    speed: i64,
    direction: Direction,
    color: ObjColor,
    jitter: i64,
)
    requires
        0 <= row < 15,
        1 <= width <= GRID_COLS,
        0 <= speed <= MAX_SPEED_PX_S,
        0 < jitter <= 30_000,
    ensures
        old(v)@.len() + 2 <= final(v)@.len() <= old(v)@.len() + 3,
        forall|j: int| 0 <= j < old(v)@.len() ==> #[trigger] final(v)@[j] == old(v)@[j],
        forall|j: int|
            old(v)@.len() <= j < final(v)@.len() ==> {
                let o = #[trigger] final(v)@[j];
                &&& o.row == row
                &&& o.width == width
                &&& o.speed == speed
                &&& o.direction == direction
                &&& o.color == color
                &&& -jitter <= o.x <= SCREEN_W_MP
                &&& o.wf()
            },
        forall|r: int|
            r != row ==> #[trigger] row_count(final(v)@, r) == row_count(old(v)@, r),
        row_count(final(v)@, row as int) == row_count(old(v)@, row as int) + final(v)@.len()
            - old(v)@.len(),
        forall|j: int|
            old(v)@.len() <= j < final(v)@.len() ==> near_even_spacing(
                (#[trigger] final(v)@[j]).x as int,
                j - old(v)@.len(),
                final(v)@.len() - old(v)@.len(),
                jitter as int,
            ),
{
    let count = rand_in_range(2, 4);
    let spacing = SCREEN_W_MP / count;
    let ghost start = v@.len();
    let mut i: i64 = 0;
    while i < count
        invariant
            2 <= count <= 4,
            count == 2 || count == 3,
            spacing == SCREEN_W_MP as int / count as int,
            0 <= i <= count,
            0 <= row < 15,
            1 <= width <= GRID_COLS,
            0 <= speed <= MAX_SPEED_PX_S,
            0 < jitter <= 30_000,
            v@.len() == start + i,
            forall|j: int| 0 <= j < start ==> #[trigger] v@[j] == old(v)@[j],
            forall|j: int|
                start <= j < v@.len() ==> {
                    let o = #[trigger] v@[j];
                    &&& o.row == row
                    &&& o.width == width
                    &&& o.speed == speed
                    &&& o.direction == direction
                    &&& o.color == color
                    &&& -jitter <= o.x <= SCREEN_W_MP
                    &&& o.wf()
                },
            forall|r: int| r != row ==> #[trigger] row_count(v@, r) == row_count(old(v)@, r),
            row_count(v@, row as int) == row_count(old(v)@, row as int) + i,
            forall|j: int|
                start <= j < v@.len() ==> near_even_spacing(
                    (#[trigger] v@[j]).x as int,
                    j - start,
                    count as int,
                    jitter as int,
                ),
        decreases count - i,
    {
        let j = rand_in_range(-jitter, jitter);
        proof {
            assert(count == 2 ==> spacing == 320_000);
            assert(count == 3 ==> spacing == 213_333);
            assert(0 <= i * spacing <= 610_000) by (nonlinear_arith)
                requires
                    0 <= i,
                    (i <= 1 && 0 <= spacing <= 320_000) || (i <= 2 && 0 <= spacing
                        <= 213_333),
            ;
        }
        let x = i * spacing + j;
        let o = MovingObject::new(x, row, width, speed, direction, color);
        let ghost before = v@;
        v.push(o);
        proof {
            lemma_row_count_push(before, o, row as int);
            assert(forall|r: int|
                r != row ==> #[trigger] row_count(v@, r) == row_count(before, r)) by {
                assert forall|r: int| r != row implies #[trigger] row_count(v@, r) == row_count(
                    before,
                    r,
                ) by {
                    lemma_row_count_push(before, o, r);
                }
            }
        }
        i = i + 1;
    }
}


impl GameState {
    /// Everything an update step needs of a state except calm riding drift:
    /// well-formed parts, the goal track's fixed shape, bounded lives, the
    /// score tied to the claimed slots, a won game over, and at least one
    /// life while the game runs.
    pub open spec fn wf_at(self) -> bool {
        &&& self.frog.wf()
        &&& (forall|i: int|
            0 <= i < self.cars@.len() ==> (#[trigger] self.cars@[i]).wf() && road_row(
                self.cars@[i].row as int,
            ))
        &&& (forall|i: int|
            0 <= i < self.logs@.len() ==> (#[trigger] self.logs@[i]).wf() && river_row(
                self.logs@[i].row as int,
            ))
        &&& goals_shape(self.goals@)
        &&& 0 <= self.lives <= INITIAL_LIVES
        &&& self.score == 100 * occ_count(self.goals@)
        &&& (self.won ==> self.game_over)
        &&& (!self.game_over ==> self.lives >= 1)
    }

    /// Well-formed: `wf_at`, and while the game runs the actor's riding
    /// offset is small enough for one more tick of drift.
    pub open spec fn wf(self) -> bool {
        &&& self.wf_at()
        &&& (!self.game_over ==> frog_calm(self.frog))
    }

    /// Replaces the whole lane field with freshly generated lanes: six road
    /// lanes and five river lanes, each with two or three objects of its
    /// fixed configuration at randomized positions. Touches nothing else.
    pub fn init_lanes(&mut self)
        ensures
            final(self).frog == old(self).frog,
            final(self).goals == old(self).goals,
            final(self).lives == old(self).lives,
            final(self).score == old(self).score,
            final(self).game_over == old(self).game_over,
            final(self).won == old(self).won,
            lanes_ok(*final(self)),
    {
        self.cars.clear();
        self.logs.clear();
        spawn_lane(&mut self.cars, 7, 2, 80, Direction::Left, ObjColor::Red, 20_000);
        let ghost c1 = self.cars@.len() as int;
        spawn_lane(&mut self.cars, 8, 3, 100, Direction::Right, ObjColor::Yellow, 20_000);
        let ghost c2 = self.cars@.len() as int;
        spawn_lane(&mut self.cars, 9, 2, 70, Direction::Left, ObjColor::Blue, 20_000);
        let ghost c3 = self.cars@.len() as int;
        spawn_lane(&mut self.cars, 10, 4, 120, Direction::Right, ObjColor::Purple, 20_000);
        let ghost c4 = self.cars@.len() as int;
        spawn_lane(&mut self.cars, 11, 2, 90, Direction::Left, ObjColor::Orange, 20_000);
        let ghost c5 = self.cars@.len() as int;
        spawn_lane(&mut self.cars, 12, 3, 60, Direction::Right, ObjColor::Maroon, 20_000);
        let ghost c6 = self.cars@.len() as int;
        spawn_lane(&mut self.logs, 1, 4, 50, Direction::Right, ObjColor::Brown, 30_000);
        let ghost l1 = self.logs@.len() as int;
        spawn_lane(&mut self.logs, 2, 3, 70, Direction::Left, ObjColor::Brown, 30_000);
        let ghost l2 = self.logs@.len() as int;
        spawn_lane(&mut self.logs, 3, 5, 40, Direction::Right, ObjColor::Brown, 30_000);
        let ghost l3 = self.logs@.len() as int;
        spawn_lane(&mut self.logs, 4, 3, 60, Direction::Left, ObjColor::Brown, 30_000);
        let ghost l4 = self.logs@.len() as int;
        spawn_lane(&mut self.logs, 5, 4, 55, Direction::Right, ObjColor::Brown, 30_000);
        let ghost l5 = self.logs@.len() as int;
        proof {
            assert forall|r: int| road_row(r) implies 2 <= #[trigger] row_count(self.cars@, r)
                <= 3 by {}
            assert forall|r: int| river_row(r) implies 2 <= #[trigger] row_count(self.logs@, r)
                <= 3 by {}
            assert forall|i: int| 0 <= i < self.cars@.len() implies car_lane_shape(
                #[trigger] self.cars@[i],
            ) by {}
            assert forall|i: int| 0 <= i < self.logs@.len() implies log_lane_shape(
                #[trigger] self.logs@[i],
            ) by {}
            assert(lane_batch_at(self.cars@, 7, 20_000, 0, c1));
            assert(lane_batch_at(self.cars@, 8, 20_000, c1, c2 - c1));
            assert(lane_batch_at(self.cars@, 9, 20_000, c2, c3 - c2));
            assert(lane_batch_at(self.cars@, 10, 20_000, c3, c4 - c3));
            assert(lane_batch_at(self.cars@, 11, 20_000, c4, c5 - c4));
            assert(lane_batch_at(self.cars@, 12, 20_000, c5, c6 - c5));
            assert(lane_batch_at(self.logs@, 1, 30_000, 0, l1));
            assert(lane_batch_at(self.logs@, 2, 30_000, l1, l2 - l1));
            assert(lane_batch_at(self.logs@, 3, 30_000, l2, l3 - l2));
            assert(lane_batch_at(self.logs@, 4, 30_000, l3, l4 - l3));
            assert(lane_batch_at(self.logs@, 5, 30_000, l4, l5 - l4));
            assert forall|r: int| road_row(r) implies #[trigger] lane_spaced(
                self.cars@,
                r,
                20_000,
            ) by {}
            assert forall|r: int| river_row(r) implies #[trigger] lane_spaced(
                self.logs@,
                r,
                30_000,
            ) by {}
        }
    }

    /// Replaces the goal track with five fresh, unclaimed slots at their
    /// fixed columns. Touches nothing else.
    pub fn init_goals(&mut self)
        ensures
            final(self).frog == old(self).frog,
            final(self).cars == old(self).cars,
            final(self).logs == old(self).logs,
            final(self).lives == old(self).lives,
            final(self).score == old(self).score,
            final(self).game_over == old(self).game_over,
            final(self).won == old(self).won,
            goals_shape(final(self).goals@),
            forall|i: int|
                0 <= i < final(self).goals@.len() ==> !(#[trigger] final(self).goals@[i]).occupied,
    {
        self.goals.clear();
        let spacing = GRID_COLS / (GOAL_COUNT + 1);
        let mut i: i64 = 0;
        while i < GOAL_COUNT
            invariant
                spacing == 3,
                0 <= i <= GOAL_COUNT,
                self.goals@.len() == i,
                self.frog == old(self).frog,
                self.cars == old(self).cars,
                self.logs == old(self).logs,
                self.lives == old(self).lives,
                self.score == old(self).score,
                self.game_over == old(self).game_over,
                self.won == old(self).won,
                forall|j: int|
                    0 <= j < i ==> (#[trigger] self.goals@[j]).col == 3 * (j + 1)
                        && !self.goals@[j].occupied,
            decreases GOAL_COUNT - i,
        {
            self.goals.push(GoalSlot { col: spacing * (i + 1), occupied: false });
            i = i + 1;
        }
    }

    /// A fresh game: actor at the start cell, three lives, no score, all
    /// slots unclaimed, and a freshly randomized lane field.
    pub fn new() -> (r: GameState)
        ensures
            r.wf(),
            fresh_game(r),
    {
        let mut state = GameState {
            frog: Frog::new(),
            cars: Vec::new(),
            logs: Vec::new(),
            goals: Vec::new(),
            lives: INITIAL_LIVES,
            score: 0,
            game_over: false,
            won: false,
        };
        state.init_lanes();
        state.init_goals();
        proof {
            lemma_occ_count_zero(state.goals@);
        }
        state
    }

    /// Starts the game over: actor, lives, score and flags restored, lane
    /// field and goal track regenerated. Equivalent to a brand-new game.
    pub fn reset(&mut self)
        ensures
            final(self).wf(),
            fresh_game(*final(self)),
    {
        self.frog.reset();
        self.lives = INITIAL_LIVES;
        self.score = 0;
        self.game_over = false;
        self.won = false;
        self.init_lanes();
        self.init_goals();
        proof {
            lemma_occ_count_zero(self.goals@);
        }
    }

    /// Takes one life. The game ends exactly when the last life goes;
    /// otherwise only the actor is reset — the world keeps moving.
    pub fn kill_frog(&mut self)
        requires
            old(self).wf_at(),
            !old(self).game_over,
        ensures
            final(self).wf(),
            final(self).cars@ == old(self).cars@,
            final(self).logs@ == old(self).logs@,
            kill_core(*old(self), *final(self)),
            old(self).lives <= 1 ==> final(self).frog == old(self).frog,
            final(self).game_over ==> final(self).lives == 0,
    {
        self.lives = self.lives - 1;
        if self.lives <= 0 {
            self.game_over = true;
        } else {
            self.frog.reset();
        }
    }

    /// When the actor stands in the goal row, resolves the landing: the first
    /// unclaimed slot whose center is strictly within reach of the actor's
    /// center is claimed for one hundred points and the actor restarts;
    /// claiming the last slot wins and ends the game; landing near no slot
    /// costs a life. In any other row this does nothing. Claimed slots never
    /// revert.
    pub fn check_goal_reached(&mut self)
        requires
            old(self).wf(),
            !old(self).game_over,
        ensures
            final(self).wf(),
            final(self).cars@ == old(self).cars@,
            final(self).logs@ == old(self).logs@,
            old(self).frog.row != 0 ==> *final(self) == *old(self),
            old(self).frog.row == 0 ==> goal_rel(
                *old(self),
                *final(self),
                old(self).frog.pixel_x() + HALF_CELL_MP,
                old(self).frog.col as int,
                old(self).frog.row as int,
                old(self).frog.riding_offset as int,
                old(self).frog.is_riding,
            ),
            final(self).goals@.len() == old(self).goals@.len(),
            forall|i: int|
                0 <= i < old(self).goals@.len() ==> ((#[trigger] old(
                    self,
                ).goals@[i]).occupied ==> final(self).goals@[i].occupied),
    {
        if self.frog.row == 0 {
            let frog_center = self.frog.get_pixel_x() + HALF_CELL_MP;
            let ghost pre = *old(self);
            let n = self.goals.len();
            let mut k: usize = 0;
            while k < n
                invariant
                    pre == *old(self),
                    *self == pre,
                    n == self.goals@.len(),
                    0 <= k <= n,
                    pre.wf(),
                    !pre.game_over,
                    pre.frog.row == 0,
                    frog_center == pre.frog.pixel_x() + HALF_CELL_MP,
                    forall|j: int|
                        0 <= j < k ==> !claimable(#[trigger] pre.goals@[j], frog_center as int),
                decreases n - k,
            {
                if !self.goals[k].occupied {
                    let goal_center = self.goals[k].col * CELL_MP + HALF_CELL_MP;
                    let distance = if frog_center >= goal_center {
                        frog_center - goal_center
                    } else {
                        goal_center - frog_center
                    };
                    if distance < GOAL_NEAR_MP {
                        let col = self.goals[k].col;
                        self.goals[k] = GoalSlot { col, occupied: true };
                        proof {
                            lemma_occ_count_claim(pre.goals@, self.goals@, k as int);
                            lemma_occ_count_bounds(pre.goals@);
                        }
                        self.score = self.score + 100;
                        self.frog.reset();
                        let mut all: bool = true;
                        let mut m: usize = 0;
                        while m < self.goals.len()
                            invariant
                                0 <= m <= self.goals@.len(),
                                all <==> (forall|j: int|
                                    0 <= j < m ==> (#[trigger] self.goals@[j]).occupied),
                            decreases self.goals@.len() - m,
                        {
                            if !self.goals[m].occupied {
                                all = false;
                            }
                            m = m + 1;
                        }
                        if all {
                            self.won = true;
                            self.game_over = true;
                        }
                        proof {
                            assert(goal_claim_at(pre, *self, frog_center as int, k as int));
                        }
                        return ;
                    }
                }
                k = k + 1;
            }
            self.kill_frog();
        }
    }

    /// Advances the world one tick of `dt_ms` milliseconds. A finished game
    /// is left untouched. Otherwise every hazard and platform advances first,
    /// and the actor is then judged against the advanced positions: run over
    /// on a road lane, carried or drowned on a river lane (and lost if
    /// carried off screen), judged against the goal slots in the top row; in
    /// the remaining rows the riding state is simply cleared. At most one
    /// life-loss or claim happens per tick. Claimed slots never revert, and a
    /// tick that ends the game does so either with the last life gone or with
    /// the game won and every slot claimed.
    pub fn update(&mut self, dt_ms: i64)
        requires
            old(self).wf(),
            0 <= dt_ms <= MAX_DT_MS,
        ensures
            final(self).wf(),
            step_rel(*old(self), *final(self), dt_ms as int),
            final(self).goals@.len() == old(self).goals@.len(),
            forall|i: int|
                0 <= i < old(self).goals@.len() ==> ((#[trigger] old(self).goals@[i]).occupied
                    ==> final(self).goals@[i].occupied),
            !old(self).game_over && final(self).game_over ==> final(self).lives == 0 || (
            final(self).won && all_occupied(final(self).goals@)),
            final(self).won ==> final(self).game_over,
    {
        if self.game_over {
            return ;
        }
        let ghost pre = *old(self);
        let ghost dt = dt_ms as int;
        let mut k: usize = 0;
        while k < self.cars.len()
            invariant
                pre == *old(self),
                pre.wf(),
                !pre.game_over,
                0 <= dt_ms <= MAX_DT_MS,
                dt == dt_ms as int,
                0 <= k <= self.cars@.len(),
                self.cars@.len() == pre.cars@.len(),
                forall|j: int|
                    0 <= j < k ==> advances_to(pre.cars@[j], #[trigger] self.cars@[j], dt)
                        && self.cars@[j].wf(),
                forall|j: int| k <= j < self.cars@.len() ==> #[trigger] self.cars@[j]
                    == pre.cars@[j],
                self.frog == pre.frog,
                self.logs == pre.logs,
                self.goals == pre.goals,
                self.lives == pre.lives,
                self.score == pre.score,
                self.game_over == pre.game_over,
                self.won == pre.won,
            decreases self.cars@.len() - k,
        {
            let mut o = self.cars[k];
            o.update(dt_ms);
            self.cars[k] = o;
            k = k + 1;
        }
        let mut k: usize = 0;
        while k < self.logs.len()
            invariant
                pre == *old(self),
                pre.wf(),
                !pre.game_over,
                0 <= dt_ms <= MAX_DT_MS,
                dt == dt_ms as int,
                0 <= k <= self.logs@.len(),
                self.logs@.len() == pre.logs@.len(),
                objs_advance(pre.cars@, self.cars@, dt),
                forall|j: int| 0 <= j < self.cars@.len() ==> (#[trigger] self.cars@[j]).wf(),
                forall|j: int|
                    0 <= j < k ==> advances_to(pre.logs@[j], #[trigger] self.logs@[j], dt)
                        && self.logs@[j].wf(),
                forall|j: int| k <= j < self.logs@.len() ==> #[trigger] self.logs@[j]
                    == pre.logs@[j],
                self.frog == pre.frog,
                self.goals == pre.goals,
                self.lives == pre.lives,
                self.score == pre.score,
                self.game_over == pre.game_over,
                self.won == pre.won,
            decreases self.logs@.len() - k,
        {
            let mut o = self.logs[k];
            o.update(dt_ms);
            self.logs[k] = o;
            k = k + 1;
        }
        let ghost mid = *self;
        let ghost mut path_ride: bool = false;
        let ghost mut ridx: int = 0;
        let frog_rect = self.frog.get_rect();
        let frog_row = self.frog.row;
        if frog_row >= ROAD_START && frog_row <= ROAD_END {
            let mut k: usize = 0;
            while k < self.cars.len()
                invariant
                    pre == *old(self),
                    pre.wf(),
                    !pre.game_over,
                    0 <= dt_ms <= MAX_DT_MS,
                    dt == dt_ms as int,
                    *self == mid,
                    mid.frog == pre.frog,
                    mid.logs@.len() == pre.logs@.len(),
                    mid.goals == pre.goals,
                    mid.lives == pre.lives,
                    mid.score == pre.score,
                    mid.game_over == pre.game_over,
                    mid.won == pre.won,
                    objs_advance(pre.cars@, mid.cars@, dt),
                    objs_advance(pre.logs@, mid.logs@, dt),
                    forall|j: int| 0 <= j < mid.cars@.len() ==> (#[trigger] mid.cars@[j]).wf(),
                    forall|j: int| 0 <= j < mid.logs@.len() ==> (#[trigger] mid.logs@[j]).wf(),
                    frog_row == pre.frog.row,
                    ROAD_START <= frog_row <= ROAD_END,
                    frog_rect.x == pre.frog.pixel_x(),
                    frog_rect.y == pre.frog.row * CELL_MP,
                    frog_rect.w == CELL_MP,
                    frog_rect.h == CELL_MP,
                    frog_rect.in_bounds(),
                    0 <= k <= self.cars@.len(),
                    forall|j: int| 0 <= j < k ==> !touches_adv(pre.cars@[j], pre.frog, dt),
                decreases self.cars@.len() - k,
            {
                if self.cars[k].row == frog_row {
                    let cr = self.cars[k].get_rect();
                    if check_collision_recs(frog_rect, cr) {
                        proof {
                            assert(advances_to(pre.cars@[k as int], mid.cars@[k as int], dt));
                            assert(touches_adv(pre.cars@[k as int], pre.frog, dt));
                            assert(car_kills(pre, dt));
                        }
                        self.kill_frog();
                        return ;
                    }
                }
                proof {
                    assert(advances_to(pre.cars@[k as int], mid.cars@[k as int], dt));
                    assert(!touches_adv(pre.cars@[k as int], pre.frog, dt));
                }
                k = k + 1;
            }
        }
        proof {
            assert(!car_kills(pre, dt));
        }
        if frog_row >= RIVER_START && frog_row <= RIVER_END {
            let mut on_log = false;
            let mut hit: usize = 0;
            let mut k: usize = 0;
            while k < self.logs.len() && !on_log
                invariant
                    pre == *old(self),
                    pre.wf(),
                    !pre.game_over,
                    0 <= dt_ms <= MAX_DT_MS,
                    dt == dt_ms as int,
                    *self == mid,
                    mid.frog == pre.frog,
                    mid.goals == pre.goals,
                    mid.lives == pre.lives,
                    mid.score == pre.score,
                    mid.game_over == pre.game_over,
                    mid.won == pre.won,
                    objs_advance(pre.cars@, mid.cars@, dt),
                    objs_advance(pre.logs@, mid.logs@, dt),
                    forall|j: int| 0 <= j < mid.cars@.len() ==> (#[trigger] mid.cars@[j]).wf(),
                    forall|j: int| 0 <= j < mid.logs@.len() ==> (#[trigger] mid.logs@[j]).wf(),
                    frog_row == pre.frog.row,
                    RIVER_START <= frog_row <= RIVER_END,
                    !car_kills(pre, dt),
                    frog_rect.x == pre.frog.pixel_x(),
                    frog_rect.y == pre.frog.row * CELL_MP,
                    frog_rect.w == CELL_MP,
                    frog_rect.h == CELL_MP,
                    frog_rect.in_bounds(),
                    0 <= k <= self.logs@.len(),
                    forall|j: int| 0 <= j < k ==> !log_touch(pre, dt, j),
                    on_log ==> hit == k && log_touch(pre, dt, k as int),
                decreases self.logs@.len() - k + if on_log {
                    0 as int
                } else {
                    1 as int
                },
            {
                let touched = if self.logs[k].row == frog_row {
                    let lr = self.logs[k].get_rect();
                    check_collision_recs(frog_rect, lr)
                } else {
                    false
                };
                proof {
                    assert(advances_to(pre.logs@[k as int], mid.logs@[k as int], dt));
                }
                if touched {
                    on_log = true;
                    hit = k;
                    proof {
                        assert(log_touch(pre, dt, k as int));
                    }
                } else {
                    proof {
                        assert(!log_touch(pre, dt, k as int));
                    }
                    k = k + 1;
                }
            }
            if on_log {
                let lg = self.logs[hit];
                self.frog.is_riding = true;
                let m = lg.direction.multiplier();
                let ghost sp: int = lg.speed as int;
                let ghost mi: int = m as int;
                proof {
                    assert(lg == mid.logs@[hit as int]);
                    assert(advances_to(pre.logs@[hit as int], lg, dt));
                    assert(mi == 1 || mi == -1);
                    assert(-1000 <= sp * mi <= 1000) by (nonlinear_arith)
                        requires
                            0 <= sp <= MAX_SPEED_PX_S,
                            mi == 1 || mi == -1,
                    ;
                    assert(-1_000_000_000 <= (sp * mi) * dt <= 1_000_000_000) by (nonlinear_arith)
                        requires
                            -1000 <= sp * mi <= 1000,
                            0 <= dt <= MAX_DT_MS,
                    ;
                    assert((sp * mi) * dt == mi * (sp * dt)) by (nonlinear_arith);
                }
                let delta: i64 = lg.speed * m * dt_ms;
                self.frog.riding_offset = self.frog.riding_offset + delta;
                proof {
                    assert(ride_delta(pre.logs@[hit as int], dt) == mi * (sp * dt));
                    assert(self.frog.riding_offset == pre.frog.riding_offset + ride_delta(
                        pre.logs@[hit as int],
                        dt,
                    ));
                    assert(self.frog.wf());
                }
                let px = self.frog.get_pixel_x();
                if px < 0 || px > FROG_MAX_X_MP {
                    self.kill_frog();
                    proof {
                        assert(ride_outcome(pre, *self, dt, hit as int));
                    }
                    return ;
                }
                proof {
                    assert(frog_calm(self.frog));
                    path_ride = true;
                    ridx = hit as int;
                    assert(ride_outcome(pre, *self, dt, ridx));
                }
            } else {
                self.kill_frog();
                proof {
                    assert(forall|i: int| !log_touch(pre, dt, i));
                }
                return ;
            }
        } else {
            self.frog.is_riding = false;
            self.frog.riding_offset = 0;
        }
        let ghost before_goal = *self;
        self.check_goal_reached();
        proof {
            if pre.frog.row == 0 {
                let center = pre.frog.col * CELL_MP + HALF_CELL_MP;
                assert(before_goal.frog.pixel_x() + HALF_CELL_MP == center);
                assert(before_goal.goals@ == pre.goals@);
                if exists|q: int|
                    0 <= q < before_goal.goals@.len() && claimable(
                        #[trigger] before_goal.goals@[q],
                        center,
                    ) {
                    let q0 = choose|q: int| goal_claim_at(before_goal, *self, center, q);
                    assert(goal_claim_at(before_goal, *self, center, q0));
                    assert(goal_claim_at(pre, *self, center, q0));
                    assert(exists|q: int|
                        0 <= q < pre.goals@.len() && claimable(#[trigger] pre.goals@[q], center));
                } else {
                    assert(forall|q: int|
                        0 <= q < pre.goals@.len() ==> !claimable(#[trigger] pre.goals@[q], center));
                    assert(kill_core(before_goal, *self));
                    assert(kill_core(pre, *self));
                }
                assert(goal_rel(pre, *self, center, pre.frog.col as int, 0, 0, false));
            }
            if path_ride {
                assert(before_goal.frog.row != 0);
                assert(*self == before_goal);
                assert(ride_outcome(pre, *self, dt, ridx));
                assert(exists|i: int| ride_outcome(pre, *self, dt, i));
            }
        }
    }
}

/// Law: a won game is always over.
pub proof fn lemma_won_implies_over(s: GameState)
    requires
        s.wf(),
    ensures
        s.won ==> s.game_over,
{
}

/// Law: two freshly reset games agree on everything a host can observe except
/// the randomized lane placements — resetting twice in a row changes nothing
/// observable.
pub proof fn lemma_reset_observables(a: GameState, b: GameState)
    requires
        fresh_game(a),
        fresh_game(b),
    ensures
        a.lives == b.lives,
        a.score == b.score,
        a.game_over == b.game_over,
        a.won == b.won,
        a.frog == b.frog,
        a.goals@ =~= b.goals@,
{
    assert forall|i: int| 0 <= i < a.goals@.len() implies a.goals@[i] == b.goals@[i] by {
        assert(a.goals@[i].col == 3 * (i + 1));
        assert(b.goals@[i].col == 3 * (i + 1));
    }
}

/// The relation `update` establishes between the state before a tick and the
/// state after it.
pub open spec fn step_rel(pre: GameState, post: GameState, dt: int) -> bool {
    if pre.game_over {
        post == pre
    } else {
        &&& objs_advance(pre.cars@, post.cars@, dt)
        &&& objs_advance(pre.logs@, post.logs@, dt)
        &&& step_frog_rel(pre, post, dt)
    }
}

/// What one tick of a running game does to everything but the advanced
/// objects, judged against their advanced positions.
pub open spec fn step_frog_rel(pre: GameState, post: GameState, dt: int) -> bool {
    let f = pre.frog;
    if car_kills(pre, dt) {
        &&& kill_core(pre, post)
        &&& (pre.lives <= 1 ==> post.frog == f)
    } else if river_row(f.row as int) {
        if exists|i: int| log_touch(pre, dt, i) {
            exists|i: int| ride_outcome(pre, post, dt, i)
        } else {
            &&& kill_core(pre, post)
            &&& (pre.lives <= 1 ==> post.frog == f)
        }
    } else if f.row == 0 {
        goal_rel(pre, post, f.col * CELL_MP + HALF_CELL_MP, f.col as int, 0, 0, false)
    } else {
        &&& frog_is(post.frog, f.col as int, f.row as int, 0, false)
        &&& post.lives == pre.lives
        &&& post.score == pre.score
        &&& post.goals@ =~= pre.goals@
        &&& post.game_over == pre.game_over
        &&& post.won == pre.won
    }
}

} // verus!
