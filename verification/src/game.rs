//! The simulation state and its fixed-timestep update.
//!
//! Geometry is integral throughout: cave boundaries are block-row indices,
//! the worm height is kept in eighths of a block (the velocity unit of the
//! game), and the trail colour is kept as a shade level in 1/32 steps, so
//! that the renderer can reconstruct the exact interpolated colour.

use vstd::prelude::*;

verus! {

/// Number of columns the viewport is divided into; also the column at which
/// a freshly spawned prize appears.
pub const WIDTH_IN_BLOCKS: u32 = 128;

/// One simulation tick runs each time this many microseconds have
/// accumulated (1/16 of a second).
pub const TICK_MICROS: u64 = 62500;

/// Phase of a run: waiting for the first action, playing, or game over.
#[derive(Clone, Copy, Debug, PartialEq, Eq, Structural)]
pub enum Status {
    Before,
    During,
    Dead,
}

/// Vertical direction shared by the cave walls, and the worm's intent.
#[derive(Clone, Copy, Debug, PartialEq, Eq, Structural)]
pub enum Direction {
    Up,
    Down,
}

impl Direction {
    /// Signed unit of motion: up is toward smaller row indices.
    pub open spec fn scalar(self) -> int {
        match self {
            Direction::Up => -1,
            Direction::Down => 1,
        }
    }

    /// The opposite direction.
    pub open spec fn flipped(self) -> Direction {
        match self {
            Direction::Up => Direction::Down,
            Direction::Down => Direction::Up,
        }
    }

    pub fn to_scalar(&self) -> (s: i32)
        ensures
            s == self.scalar(),
    {
        match *self {
            Direction::Up => -1,
            Direction::Down => 1,
        }
    }
}

/// Velocity integration clamps to [-16, 16] (eighths of a block per tick).
pub open spec fn clamp_vel(v: int) -> int {
    if v < -16 {
        -16
    } else if v > 16 {
        16
    } else {
        v
    }
}

/// Shade level of a trail square for a given velocity: the numerator of the
/// colour-interpolation factor (16 + v)/32, clamped into [0, 32].  Level 0 is
/// the full climbing colour, level 32 the full falling colour, 16 the middle.
pub open spec fn shade_of_vel(v: int) -> int {
    if 16 + v < 0 {
        0
    } else if 16 + v > 32 {
        32
    } else {
        16 + v
    }
}

/// A fresh prize spawns this tick exactly when the raw draw, reduced mod 10,
/// exceeds 8 (a one-in-ten chance for a uniform draw).
pub open spec fn spawn_happens(r_spawn: u64) -> bool {
    r_spawn % 10 > 8
}

/// Prize list after the spawn step: when a spawn happens, a prize is pushed
/// at the rightmost-edge column with the given row.
pub open spec fn prizes_after_spawn(ps: Seq<(i32, i32)>, spawn: bool, row: int) -> Seq<(i32, i32)> {
    if spawn {
        ps.push((WIDTH_IN_BLOCKS as i32, row as i32))
    } else {
        ps
    }
}

/// Prize list after the scroll step: every column moves one block left.
pub open spec fn prizes_scrolled(ps: Seq<(i32, i32)>) -> Seq<(i32, i32)> {
    ps.map_values(|p: (i32, i32)| (((p.0 - 1) as i32), p.1))
}

/// Prize list after the cull step: prizes that scrolled past the left edge
/// (column below zero) are dropped, order kept.
pub open spec fn prizes_on_screen(ps: Seq<(i32, i32)>) -> Seq<(i32, i32)>
    decreases ps.len(),
{
    if ps.len() == 0 {
        Seq::empty()
    } else {
        let rest = prizes_on_screen(ps.drop_last());
        if ps.last().0 >= 0 {
            rest.push(ps.last())
        } else {
            rest
        }
    }
}

/// A prize is close enough to the worm to be collected: strictly less than
/// two blocks away both in column (the worm's column is its trail length)
/// and in row (heights compared in eighths of a block).
pub open spec fn prize_near_worm(p: (i32, i32), wcol: int, h8: int) -> bool {
    &&& -2 < p.0 - wcol < 2
    &&& -16 < p.1 * 8 - h8 < 16
}

/// Prize list after the collection step: prizes near the worm are removed,
/// order of the rest kept.
pub open spec fn prizes_kept(ps: Seq<(i32, i32)>, wcol: int, h8: int) -> Seq<(i32, i32)>
    decreases ps.len(),
{
    if ps.len() == 0 {
        Seq::empty()
    } else {
        let rest = prizes_kept(ps.drop_last(), wcol, h8);
        if prize_near_worm(ps.last(), wcol, h8) {
            rest
        } else {
            rest.push(ps.last())
        }
    }
}

/// How many prizes the collection step removes.
pub open spec fn prizes_collected(ps: Seq<(i32, i32)>, wcol: int, h8: int) -> int
    decreases ps.len(),
{
    if ps.len() == 0 {
        0
    } else {
        prizes_collected(ps.drop_last(), wcol, h8) + if prize_near_worm(ps.last(), wcol, h8) {
            1int
        } else {
            0int
        }
    }
}

/// Exact description of a freshly constructed game for viewport `x` by `y`
/// pixels: flat cave walls at one and seven eighths of the grid height, the
/// worm trail level in the middle with the neutral shade, no prizes, no
/// score, and the run not yet started.
pub open spec fn is_initial(g: Game, x: u32, y: u32) -> bool {
    let bw = x as int / 128;
    let xb = x as int / bw;
    let yb = y as int / bw;
    &&& g.width == x
    &&& g.height == y
    &&& g.block_width == bw
    &&& g.cave_height == yb
    &&& g.cave_top@ == Seq::new(xb as nat, |i: int| (yb / 8) as i32)
    &&& g.cave_bottom@ == Seq::new(xb as nat, |i: int| (yb * 7 / 8) as i32)
    &&& g.prizes@ == Seq::<(i32, i32)>::empty()
    &&& g.worm_height@ == Seq::new((xb / 2) as nat, |i: int| ((yb * 4) as i32, 16i32))
    &&& g.cave_dir is Up
    &&& g.worm_dir is Down
    &&& g.worm_vel == -16
    &&& g.score == 0
    &&& g.dt_acc == 0
    &&& g.status is Before
}

/// Player and wall locations, motions, score, time, and game state.
///
/// `cave_top[i] < cave_bottom[i]` bounds the open gap at column `i`; the worm
/// trail spans the left half of the columns and only its last entry is the
/// live position.  All fields are public so that a renderer can read a
/// consistent snapshot; mutation goes through the verified methods.
pub struct Game {
    /// Viewport width in pixels; fixed for the life of the run.
    pub width: u32,
    /// Viewport height in pixels; fixed for the life of the run.
    pub height: u32,
    /// Pixel size of one grid block, `width / WIDTH_IN_BLOCKS`.
    pub block_width: u32,
    /// Grid height in blocks, `height / block_width`.
    pub cave_height: i32,
    /// Top wall boundary row per column, oldest (leftmost) first.
    pub cave_top: Vec<i32>,
    /// Bottom wall boundary row per column, oldest (leftmost) first.
    pub cave_bottom: Vec<i32>,
    /// Scrolling collectibles as (column, row) pairs.
    pub prizes: Vec<(i32, i32)>,
    /// Worm trail as (height in eighths of a block, shade level) pairs,
    /// oldest first; the last entry is the worm's current position.
    pub worm_height: Vec<(i32, i32)>,
    /// Direction both cave walls currently drift.
    pub cave_dir: Direction,
    /// Direction the worm is steering (Up while the action button is held).
    pub worm_dir: Direction,
    /// Worm velocity in eighths of a block per tick, within the clamp bound.
    pub worm_vel: i32,
    /// Survival and prize score; never decreases within one run.
    pub score: i64,
    /// Microseconds accumulated toward the next tick.
    pub dt_acc: u64,
    /// Phase of the run.
    pub status: Status,
}

impl Game {
    /// Structural invariant: every reachable state satisfies it.
    pub open spec fn wf(self) -> bool {
        &&& 128 <= self.width <= 65536
        &&& self.height <= 65536
        &&& 2 * (self.width as int / 128) <= self.height
        &&& 1 <= self.block_width
        &&& 2 <= self.cave_height <= 65536
        &&& self.cave_top@.len() == self.cave_bottom@.len()
        &&& 2 <= self.cave_top@.len() <= 65536
        &&& 2 <= self.worm_height@.len() <= self.cave_top@.len()
        &&& forall|i: int| 0 <= i < self.cave_top@.len() ==> 0 <= #[trigger] self.cave_top@[i]
        &&& forall|i: int|
            0 <= i < self.cave_top@.len() ==> #[trigger] self.cave_top@[i] < self.cave_bottom@[i]
        &&& forall|i: int|
            0 <= i < self.cave_bottom@.len() ==> #[trigger] self.cave_bottom@[i]
                <= self.cave_height - 1
        &&& self.cave_dir is Down ==> self.cave_top@.last() >= 1
        &&& -16 <= self.worm_vel <= 16
        &&& self.dt_acc <= TICK_MICROS
        &&& forall|i: int|
            0 <= i < self.worm_height@.len() ==> {
                &&& -16 <= (#[trigger] self.worm_height@[i]).0 <= self.cave_height * 8 + 16
                &&& 0 <= self.worm_height@[i].1 <= 32
            }
        &&& self.status !is Dead ==> 0 <= self.worm_height@.last().0 <= self.cave_height * 8
        &&& forall|i: int|
            0 <= i < self.prizes@.len() ==> {
                &&& 0 <= (#[trigger] self.prizes@[i]).0 <= 127
                &&& 0 <= self.prizes@[i].1 <= self.cave_height
            }
        &&& 0 <= self.score
    }

    /// A wall has reached the screen edge at the newest column.
    pub open spec fn wall_hit(self) -> bool {
        self.cave_top@.last() <= 0 || self.cave_bottom@.last() >= self.cave_height - 1
    }

    /// The worm's newest sample lies outside the gap at its column: above
    /// `top + 1` (one block of margin) or below `bottom` (no margin).
    pub open spec fn worm_collided_now(self) -> bool {
        let wl = self.worm_height@.len() as int;
        let h8 = self.worm_height@.last().0 as int;
        h8 < (self.cave_top@[wl - 1] + 1) * 8 || h8 > self.cave_bottom@[wl - 1] * 8
    }

    /// Cave direction after this tick's bounce check.
    pub open spec fn tick_cave_dir(self) -> Direction {
        if self.wall_hit() {
            self.cave_dir.flipped()
        } else {
            self.cave_dir
        }
    }

    /// One-tick corrective offset on the bottom wall: only when a bounce
    /// flips the direction from Up to Down.
    pub open spec fn tick_thunk(self) -> int {
        if self.wall_hit() && self.cave_dir is Up {
            -1
        } else {
            0
        }
    }

    /// Worm velocity after this tick's integration and clamp.
    pub open spec fn tick_vel(self) -> int {
        clamp_vel(self.worm_vel + self.worm_dir.scalar())
    }

    /// Top boundary row of the column this tick appends.
    pub open spec fn tick_top_last(self) -> int {
        self.cave_top@.last() + self.tick_cave_dir().scalar()
    }

    /// Bottom boundary row of the column this tick appends.
    pub open spec fn tick_bottom_last(self) -> int {
        self.cave_bottom@.last() + self.tick_cave_dir().scalar() + self.tick_thunk()
    }

    /// Gap height of the column this tick appends.
    pub open spec fn next_gap(self) -> int {
        self.tick_bottom_last() - self.tick_top_last()
    }

    /// A call of `update_dt` with this much elapsed time runs a tick: the
    /// run is active and the accumulator passes the threshold.
    pub open spec fn tick_runs(self, dt_micros: u64) -> bool {
        self.status is During && self.dt_acc + dt_micros > TICK_MICROS
    }

    /// Row of the prize a spawn this tick would create: uniform strictly
    /// between the newly appended top and bottom boundaries.
    pub open spec fn spawned_row(self, r_row: u64) -> int {
        self.tick_top_last() + 1 + (r_row as int) % (self.tick_bottom_last() - self.tick_top_last()
            - 1)
    }

    /// Worm height after this tick, in eighths of a block.
    pub open spec fn tick_worm_last(self) -> int {
        self.worm_height@.last().0 + self.tick_vel()
    }

    /// Top wall after this tick: oldest column dropped, one appended.
    pub open spec fn tick_top_seq(self) -> Seq<i32> {
        self.cave_top@.remove(0).push(self.tick_top_last() as i32)
    }

    /// Bottom wall after this tick: oldest column dropped, one appended.
    pub open spec fn tick_bottom_seq(self) -> Seq<i32> {
        self.cave_bottom@.remove(0).push(self.tick_bottom_last() as i32)
    }

    /// Worm trail after this tick: oldest sample dropped, the new position
    /// appended with the shade of the new velocity.
    pub open spec fn tick_worm_seq(self) -> Seq<(i32, i32)> {
        self.worm_height@.remove(0).push(
            (self.tick_worm_last() as i32, shade_of_vel(self.tick_vel()) as i32),
        )
    }

    /// The worm's new position collides with the new walls at its column.
    pub open spec fn tick_collides(self) -> bool {
        let wl = self.worm_height@.len() as int;
        self.tick_worm_last() < (self.tick_top_seq()[wl - 1] + 1) * 8
            || self.tick_worm_last() > self.tick_bottom_seq()[wl - 1] * 8
    }

    /// Prize list after this tick's spawn, scroll, cull and collection
    /// steps, in that order.
    pub open spec fn tick_prizes(self, r_spawn: u64, r_row: u64) -> Seq<(i32, i32)> {
        let after_spawn = prizes_after_spawn(
            self.prizes@,
            spawn_happens(r_spawn),
            self.spawned_row(r_row),
        );
        prizes_kept(
            prizes_on_screen(prizes_scrolled(after_spawn)),
            self.worm_height@.len() as int,
            self.worm_height@.last().0 as int,
        )
    }

    /// How many prizes this tick's collection step removes.
    pub open spec fn tick_collected(self, r_spawn: u64, r_row: u64) -> int {
        let after_spawn = prizes_after_spawn(
            self.prizes@,
            spawn_happens(r_spawn),
            self.spawned_row(r_row),
        );
        prizes_collected(
            prizes_on_screen(prizes_scrolled(after_spawn)),
            self.worm_height@.len() as int,
            self.worm_height@.last().0 as int,
        )
    }

    /// Full description of one simulation tick: `post` is `pre` one tick
    /// later, given the two raw random draws.
    pub open spec fn tick_rel(pre: Game, post: Game, r_spawn: u64, r_row: u64) -> bool {
        &&& post.width == pre.width
        &&& post.height == pre.height
        &&& post.block_width == pre.block_width
        &&& post.cave_height == pre.cave_height
        &&& post.cave_dir == pre.tick_cave_dir()
        &&& post.worm_dir == pre.worm_dir
        &&& post.worm_vel == pre.tick_vel()
        &&& post.cave_top@ == pre.tick_top_seq()
        &&& post.cave_bottom@ == pre.tick_bottom_seq()
        &&& post.prizes@ == pre.tick_prizes(r_spawn, r_row)
        &&& post.worm_height@ == pre.tick_worm_seq()
        &&& post.status == if pre.tick_collides() {
            Status::Dead
        } else {
            Status::During
        }
        &&& post.score == pre.score + 10 * pre.tick_collected(r_spawn, r_row) + if pre.tick_collides() {
            0int
        } else {
            1int
        }
        &&& post.dt_acc == 0
    }

    pub fn is_wall_collided(&self) -> (r: bool)
        requires
            self.cave_top@.len() >= 1,
            self.cave_bottom@.len() >= 1,
            self.cave_height >= 1,
        ensures
            r == self.wall_hit(),
    {
        self.cave_top[self.cave_top.len() - 1] <= 0
            || self.cave_bottom[self.cave_bottom.len() - 1] >= self.cave_height - 1
    }

    pub fn is_worm_collided(&self) -> (r: bool)
        requires
            self.wf(),
        ensures
            r == self.worm_collided_now(),
    {
        let wl = self.worm_height.len();
        let h8 = self.worm_height[wl - 1].0;
        let top = self.cave_top[wl - 1];
        let bottom = self.cave_bottom[wl - 1];
        h8 < (top + 1) * 8 || h8 > bottom * 8
    }

    /// Builds a fresh game for a viewport of `x` by `y` pixels.  The block
    /// size is `x / WIDTH_IN_BLOCKS`; the bounds on `x` and `y` keep every
    /// derived coordinate well inside `i32`, and `y` must allow a grid at
    /// least two blocks tall so the cave has a gap.
    pub fn new(x: u32, y: u32) -> (g: Game)
        requires
            128 <= x <= 65536,
            y <= 65536,
            2 * (x as int / 128) <= y as int,
        ensures
            g.wf(),
            is_initial(g, x, y),
    {
        let block_width = x / 128;
        let x_blocks = x / block_width;
        let y_blocks = y / block_width;
        let worm_len = x_blocks / 2;
        proof {
            let bw = x as int / 128;
            vstd::arithmetic::div_mod::lemma_fundamental_div_mod(x as int, 128);
            assert(x as int >= 128 * bw);
            vstd::arithmetic::div_mod::lemma_div_is_ordered(128 * bw, x as int, bw);
            vstd::arithmetic::div_mod::lemma_div_by_multiple(128, bw);
            assert(x_blocks >= 128);
            vstd::arithmetic::div_mod::lemma_div_nonincreasing(x as int, bw);
            assert(x_blocks <= 65536);
            vstd::arithmetic::div_mod::lemma_div_is_ordered(2 * bw, y as int, bw);
            vstd::arithmetic::div_mod::lemma_div_by_multiple(2, bw);
            assert(y_blocks >= 2);
            vstd::arithmetic::div_mod::lemma_div_nonincreasing(y as int, bw);
            assert(y_blocks <= 65536);
            vstd::arithmetic::div_mod::lemma_div_is_ordered(128, x_blocks as int, 2);
            assert(worm_len >= 2);
            vstd::arithmetic::div_mod::lemma_div_nonincreasing(x_blocks as int, 2);
            assert(worm_len <= x_blocks);
        }
        let top0: i32 = (y_blocks / 8) as i32;
        let bottom0: i32 = ((y_blocks * 7) / 8) as i32;
        let h0: i32 = (y_blocks * 4) as i32;
        proof {
            let yb = y_blocks as int;
            vstd::arithmetic::div_mod::lemma_fundamental_div_mod(yb, 8);
            vstd::arithmetic::div_mod::lemma_fundamental_div_mod(7 * yb, 8);
            vstd::arithmetic::div_mod::lemma_mod_division_less_than_divisor(yb, 8);
            vstd::arithmetic::div_mod::lemma_mod_division_less_than_divisor(7 * yb, 8);
            // 8*top0 <= yb and 8*bottom0 >= 7*yb - 7, so the initial gap is open.
            assert(top0 < bottom0);
            vstd::arithmetic::div_mod::lemma_multiply_divide_lt(7 * yb, 8, yb);
            assert(bottom0 <= y_blocks - 1);
            vstd::arithmetic::div_mod::lemma_div_pos_is_pos(yb, 8);
            assert(top0 >= 0);
        }
        let mut cave_top: Vec<i32> = Vec::new();
        let mut cave_bottom: Vec<i32> = Vec::new();
        let mut worm_height: Vec<(i32, i32)> = Vec::new();
        let mut i: u32 = 0;
        while i < x_blocks
            invariant
                i <= x_blocks,
                cave_top@.len() == i,
                cave_bottom@.len() == i,
                forall|j: int| 0 <= j < i ==> #[trigger] cave_top@[j] == top0,
                forall|j: int| 0 <= j < i ==> #[trigger] cave_bottom@[j] == bottom0,
            decreases x_blocks - i,
        {
            cave_top.push(top0);
            cave_bottom.push(bottom0);
            i = i + 1;
        }
        let mut i: u32 = 0;
        while i < worm_len
            invariant
                i <= worm_len,
                worm_height@.len() == i,
                forall|j: int| 0 <= j < i ==> #[trigger] worm_height@[j] == (h0, 16i32),
            decreases worm_len - i,
        {
            worm_height.push((h0, 16));
            i = i + 1;
        }
        let g = Game {
            width: x,
            height: y,
            block_width,
            cave_height: y_blocks as i32,
            cave_top,
            cave_bottom,
            prizes: Vec::new(),
            worm_height,
            cave_dir: Direction::Up,
            worm_dir: Direction::Down,
            worm_vel: -16,
            score: 0,
            dt_acc: 0,
            status: Status::Before,
        };
        proof {
            let bw = x as int / 128;
            let xb = x as int / bw;
            let yb = y as int / bw;
            assert(g.cave_top@ =~= Seq::new(xb as nat, |i: int| (yb / 8) as i32));
            assert(g.cave_bottom@ =~= Seq::new(xb as nat, |i: int| (yb * 7 / 8) as i32));
            assert(g.worm_height@ =~= Seq::new((xb / 2) as nat, |i: int| ((yb * 4) as i32, 16i32)));
            assert(g.prizes@ =~= Seq::<(i32, i32)>::empty());
        }
        g
    }

    /// Spawn-free part of the prize pipeline for one tick: scroll every
    /// prize one column left, drop the ones past the left edge, and collect
    /// the ones within reach of the worm (column `wl`, height `h8` in
    /// eighths).  Returns the surviving prizes and the number collected.
    #[verifier::loop_isolation(false)]
    fn process_prizes(ps: &Vec<(i32, i32)>, wl: usize, h8: i32, hi_row: i32) -> (r: (
        Vec<(i32, i32)>,
        i64,
    ))
        requires
            forall|j: int|
                0 <= j < ps@.len() ==> {
                    &&& 0 <= (#[trigger] ps@[j]).0 <= 128
                    &&& 0 <= ps@[j].1 <= hi_row
                },
            ps@.len() < 0x1000_0000_0000_0000,
            wl <= 65536,
            -600000 <= h8 <= 600000,
            0 <= hi_row <= 65536,
        ensures
            r.0@ == prizes_kept(prizes_on_screen(prizes_scrolled(ps@)), wl as int, h8 as int),
            r.1 == prizes_collected(prizes_on_screen(prizes_scrolled(ps@)), wl as int, h8 as int),
            0 <= r.1 <= ps@.len(),
            forall|j: int|
                0 <= j < r.0@.len() ==> {
                    &&& 0 <= (#[trigger] r.0@[j]).0 <= 127
                    &&& 0 <= r.0@[j].1 <= hi_row
                },
    {
        // Scroll: every prize moves one column left.
        let mut scrolled: Vec<(i32, i32)> = Vec::new();
        let mut i: usize = 0;
        while i < ps.len()
            invariant
                i <= ps@.len(),
                scrolled@.len() == i,
                forall|j: int|
                    0 <= j < i ==> #[trigger] scrolled@[j] == (
                        ((ps@[j].0 - 1) as i32),
                        ps@[j].1,
                    ),
            decreases ps@.len() - i,
        {
            let p = ps[i];
            scrolled.push((p.0 - 1, p.1));
            i = i + 1;
        }
        assert(scrolled@ =~= prizes_scrolled(ps@));
        assert(forall|j: int|
            0 <= j < scrolled@.len() ==> {
                &&& -1 <= (#[trigger] scrolled@[j]).0 <= 127
                &&& 0 <= scrolled@[j].1 <= hi_row
            });

        // Cull: drop prizes that went off the left edge.
        let mut on_screen: Vec<(i32, i32)> = Vec::new();
        let mut i: usize = 0;
        while i < scrolled.len()
            invariant
                i <= scrolled@.len(),
                on_screen@.len() <= i,
                on_screen@ == prizes_on_screen(scrolled@.take(i as int)),
                forall|j: int|
                    0 <= j < on_screen@.len() ==> {
                        &&& 0 <= (#[trigger] on_screen@[j]).0 <= 127
                        &&& 0 <= on_screen@[j].1 <= hi_row
                    },
            decreases scrolled@.len() - i,
        {
            let p = scrolled[i];
            proof {
                assert(scrolled@.take(i as int + 1).drop_last() =~= scrolled@.take(i as int));
                assert(scrolled@.take(i as int + 1).last() == scrolled@[i as int]);
            }
            if p.0 >= 0 {
                on_screen.push(p);
            }
            i = i + 1;
        }
        assert(scrolled@.take(scrolled@.len() as int) =~= scrolled@);
        let ghost on_s = on_screen@;

        // Collection at the worm's column and height.
        let wl32 = wl as i32;
        let mut kept: Vec<(i32, i32)> = Vec::new();
        let mut collected: i64 = 0;
        let mut i: usize = 0;
        while i < on_screen.len()
            invariant
                i <= on_s.len(),
                kept@ == prizes_kept(on_s.take(i as int), wl as int, h8 as int),
                collected == prizes_collected(on_s.take(i as int), wl as int, h8 as int),
                0 <= collected <= i,
                forall|j: int|
                    0 <= j < kept@.len() ==> {
                        &&& 0 <= (#[trigger] kept@[j]).0 <= 127
                        &&& 0 <= kept@[j].1 <= hi_row
                    },
            decreases on_s.len() - i,
        {
            let p = on_screen[i];
            proof {
                assert(on_s.take(i as int + 1).drop_last() =~= on_s.take(i as int));
                assert(on_s.take(i as int + 1).last() == on_s[i as int]);
            }
            let dx = p.0 - wl32;
            let mut near = false;
            if -2 < dx && dx < 2 {
                let dy = p.1 * 8 - h8;
                if -16 < dy && dy < 16 {
                    near = true;
                }
            }
            assert(near == prize_near_worm(p, wl as int, h8 as int));
            if near {
                collected = collected + 1;
            } else {
                kept.push(p);
            }
            i = i + 1;
        }
        assert(on_s.take(on_s.len() as int) =~= on_s);
        (kept, collected)
    }

    /// One discrete simulation tick.  Only called while the run is active,
    /// with the time accumulator just consumed; the gap conditions rule out
    /// the geometry-breaking states in which the game rules would close
    /// the cave or have no room for a spawned prize.
    #[verifier::loop_isolation(false)]
    #[verifier::rlimit(100)]
    fn tick(&mut self, r_spawn: u64, r_row: u64)
        requires
            old(self).wf(),
            old(self).status is During,
            old(self).dt_acc == 0,
            old(self).score + 11 + 10 * old(self).prizes@.len() <= i64::MAX,
            old(self).next_gap() >= 1,
            spawn_happens(r_spawn) ==> old(self).next_gap() >= 2,
        ensures
            Game::tick_rel(*old(self), *final(self), r_spawn, r_row),
            final(self).wf(),
            final(self).score >= old(self).score,
    {
        let ghost pre = *self;

        // Wall bounce check: flip the shared direction at a screen edge,
        // with the one-tick bottom-wall correction on the Up-to-Down flip.
        let mut thunk: i32 = 0;
        if self.is_wall_collided() {
            match self.cave_dir {
                Direction::Up => {
                    thunk = -1;
                    self.cave_dir = Direction::Down;
                },
                Direction::Down => {
                    self.cave_dir = Direction::Up;
                },
            }
        }
        assert(self.cave_dir == pre.tick_cave_dir());
        assert(thunk as int == pre.tick_thunk());

        // Velocity integration with clamping.
        let ds = self.worm_dir.to_scalar();
        self.worm_vel = self.worm_vel + ds;
        if self.worm_vel < -16 {
            self.worm_vel = -16;
        }
        if self.worm_vel > 16 {
            self.worm_vel = 16;
        }
        assert(self.worm_vel as int == pre.tick_vel());

        // Cave scroll: drop the oldest column, append one at the new edge.
        let cds = self.cave_dir.to_scalar();
        self.cave_top.remove(0);
        let t_last = self.cave_top[self.cave_top.len() - 1];
        assert(t_last == pre.cave_top@.last());
        assert(0 <= t_last <= pre.cave_height - 1);
        let top_new = t_last + cds;
        self.cave_top.push(top_new);

        self.cave_bottom.remove(0);
        let b_last = self.cave_bottom[self.cave_bottom.len() - 1];
        assert(b_last == pre.cave_bottom@.last());
        assert(0 <= b_last <= pre.cave_height - 1);
        let bottom_new = b_last + cds + thunk;
        self.cave_bottom.push(bottom_new);

        assert(top_new as int == pre.tick_top_last());
        assert(bottom_new as int == pre.tick_bottom_last());
        assert(self.cave_top@ == pre.tick_top_seq());
        assert(self.cave_bottom@ == pre.tick_bottom_seq());

        // Prize spawn at the rightmost-edge column, strictly inside the gap.
        if r_spawn % 10 > 8 {
            let room = bottom_new - top_new - 1;
            assert(room as int == pre.next_gap() - 1);
            assert(room >= 1);
            let off = (r_row % (room as u64)) as i32;
            assert(0 <= off < room);
            let row = top_new + 1 + off;
            assert(row as int == pre.spawned_row(r_row));
            assert(0 <= row <= pre.cave_height - 1);
            self.prizes.push((WIDTH_IN_BLOCKS as i32, row));
        }
        let ghost after_spawn = self.prizes@;
        assert(after_spawn == prizes_after_spawn(
            pre.prizes@,
            spawn_happens(r_spawn),
            pre.spawned_row(r_row),
        ));
        assert(forall|j: int|
            0 <= j < after_spawn.len() ==> {
                &&& 0 <= (#[trigger] after_spawn[j]).0 <= 128
                &&& 0 <= after_spawn[j].1 <= pre.cave_height
            });

        // Prize scroll, cull and collection.
        let wl = self.worm_height.len();
        let h8 = self.worm_height[wl - 1].0;
        assert(wl as int == pre.worm_height@.len());
        assert(h8 == pre.worm_height@.last().0);
        let ch = self.cave_height;
        let (kept, collected) = Game::process_prizes(&self.prizes, wl, h8, ch);
        self.prizes = kept;
        assert(self.prizes@ == pre.tick_prizes(r_spawn, r_row));
        assert(collected == pre.tick_collected(r_spawn, r_row));
        assert(collected <= pre.prizes@.len() + 1);
        self.score = self.score + 10 * collected;

        // Worm scroll: drop the oldest sample, append the new position.
        self.worm_height.remove(0);
        let w_last = self.worm_height[self.worm_height.len() - 1];
        assert(w_last == pre.worm_height@.last());
        assert(0 <= w_last.0 <= pre.cave_height * 8);
        let shade = 16 + self.worm_vel;
        let h_new = w_last.0 + self.worm_vel;
        self.worm_height.push((h_new, shade));
        assert(h_new as int == pre.tick_worm_last());
        assert(shade as int == shade_of_vel(pre.tick_vel()));
        assert(self.worm_height@ == pre.tick_worm_seq());

        // Worm collision check against the new walls at the worm's column,
        // then the survival point.
        let wl2 = self.worm_height.len();
        assert(wl2 == wl);
        proof {
            let idx = wl2 as int - 1;
            if idx < pre.cave_top@.len() - 1 {
                assert(self.cave_top@[wl2 - 1] == pre.cave_top@[wl2 as int]);
                assert(self.cave_bottom@[wl2 - 1] == pre.cave_bottom@[wl2 as int]);
            }
        }
        let top_c = self.cave_top[wl2 - 1];
        let bot_c = self.cave_bottom[wl2 - 1];
        assert(-2 <= top_c <= 65536 + 1);
        assert(-2 <= bot_c <= 65536 + 1);
        let dead = h_new < (top_c + 1) * 8 || h_new > bot_c * 8;
        assert(dead == pre.tick_collides());
        if dead {
            self.status = Status::Dead;
        } else {
            self.score = self.score + 1;
        }
        assert(Game::tick_rel(pre, *self, r_spawn, r_row));
        proof {
            let rt = pre.cave_top@.last() as int;
            let rb = pre.cave_bottom@.last() as int;
            let ch_g = pre.cave_height as int;
            assert(0 <= rt && rt < rb && rb <= ch_g - 1);
            assert(0 <= pre.tick_top_last() && pre.tick_bottom_last() <= ch_g - 1);
            assert(self.cave_dir is Down ==> pre.tick_top_last() >= 1);
            assert forall|i: int|
                0 <= i < self.cave_top@.len() implies 0 <= #[trigger] self.cave_top@[i] by {
                if i < self.cave_top@.len() - 1 {
                    assert(self.cave_top@[i] == pre.cave_top@[i + 1]);
                    assert(pre.cave_top@[i + 1] < pre.cave_bottom@[i + 1]);
                } else {
                    assert(self.cave_top@[i] == (pre.tick_top_last() as i32));
                }
            }
            assert forall|i: int|
                0 <= i < self.cave_top@.len() implies #[trigger] self.cave_top@[i]
                < self.cave_bottom@[i] by {
                if i < self.cave_top@.len() - 1 {
                    assert(self.cave_top@[i] == pre.cave_top@[i + 1]);
                    assert(self.cave_bottom@[i] == pre.cave_bottom@[i + 1]);
                } else {
                    assert(self.cave_top@[i] == (pre.tick_top_last() as i32));
                    assert(self.cave_bottom@[i] == (pre.tick_bottom_last() as i32));
                }
            }
            assert forall|i: int|
                0 <= i < self.cave_bottom@.len() implies #[trigger] self.cave_bottom@[i]
                <= self.cave_height - 1 by {
                if i < self.cave_bottom@.len() - 1 {
                    assert(self.cave_bottom@[i] == pre.cave_bottom@[i + 1]);
                    assert(pre.cave_top@[i + 1] < pre.cave_bottom@[i + 1]);
                } else {
                    assert(self.cave_bottom@[i] == (pre.tick_bottom_last() as i32));
                }
            }
            assert forall|i: int| 0 <= i < self.worm_height@.len() implies {
                &&& -16 <= (#[trigger] self.worm_height@[i]).0 <= self.cave_height * 8 + 16
                &&& 0 <= self.worm_height@[i].1 <= 32
            } by {
                if i < self.worm_height@.len() - 1 {
                    assert(self.worm_height@[i] == pre.worm_height@[i + 1]);
                }
            }
        }
        assert(self.wf());
    }

    /// Advances the simulation by `dt_micros` microseconds of real time.
    /// A no-op while Before or Dead.  While During, time accumulates until
    /// it exceeds the tick threshold; then the accumulator resets and
    /// exactly one tick runs, however much time had built up.  `r_spawn`
    /// and `r_row` are the injected uniform random draws for the prize
    /// spawn decision and row.
    ///
    /// The preconditions ask for headroom only when a tick actually runs:
    /// room in the score for this tick's points, and an open gap at the
    /// column the tick appends (two rows of gap when a prize spawns, so
    /// the spawned row fits strictly inside).
    pub fn update_dt(&mut self, dt_micros: u64, r_spawn: u64, r_row: u64)
        requires
            old(self).wf(),
            old(self).tick_runs(dt_micros) ==> old(self).score + 11 + 10 * old(
                self,
            ).prizes@.len() <= i64::MAX,
            old(self).tick_runs(dt_micros) ==> old(self).next_gap() >= 1,
            old(self).tick_runs(dt_micros) && spawn_happens(r_spawn) ==> old(self).next_gap()
                >= 2,
        ensures
            final(self).wf(),
            old(self).status is Before ==> *final(self) == *old(self),
            old(self).status is Dead ==> *final(self) == *old(self),
            old(self).status is During && !old(self).tick_runs(dt_micros) ==> *final(self)
                == (Game { dt_acc: (old(self).dt_acc + dt_micros) as u64, ..*old(self) }),
            old(self).tick_runs(dt_micros) ==> Game::tick_rel(
                *old(self),
                *final(self),
                r_spawn,
                r_row,
            ),
            final(self).score >= old(self).score,
            -16 <= final(self).worm_vel <= 16,
            final(self).cave_top@.len() == old(self).cave_top@.len(),
            final(self).cave_bottom@.len() == old(self).cave_bottom@.len(),
            final(self).worm_height@.len() == old(self).worm_height@.len(),
    {
        match self.status {
            Status::During => {
                let acc = if dt_micros > TICK_MICROS {
                    TICK_MICROS + 1
                } else {
                    self.dt_acc + dt_micros
                };
                if acc > TICK_MICROS {
                    self.dt_acc = 0;
                    self.tick(r_spawn, r_row);
                } else {
                    self.dt_acc = acc;
                }
            },
            _ => {},
        }
    }

    /// Press of the action button (`is_action` true): while During, steer
    /// the worm to climb.  Anything else, including presses while Before or
    /// Dead and other buttons, is ignored.
    pub fn press_btn(&mut self, is_action: bool)
        ensures
            is_action && old(self).status is During ==> *final(self) == (Game {
                worm_dir: Direction::Up,
                ..*old(self)
            }),
            !(is_action && old(self).status is During) ==> *final(self) == *old(self),
            old(self).wf() ==> final(self).wf(),
    {
        if is_action {
            match self.status {
                Status::During => self.worm_dir = Direction::Up,
                _ => {},
            }
        }
    }

    /// Release of the action button (`is_action` true): starts the run
    /// while Before, lets the worm fall while During, and while Dead
    /// replaces the whole state with a freshly constructed game of the same
    /// dimensions.  Other buttons are ignored.
    pub fn release_btn(&mut self, is_action: bool)
        requires
            old(self).wf(),
        ensures
            final(self).wf(),
            !is_action ==> *final(self) == *old(self),
            is_action && old(self).status is Before ==> *final(self) == (Game {
                status: Status::During,
                ..*old(self)
            }),
            is_action && old(self).status is During ==> *final(self) == (Game {
                worm_dir: Direction::Down,
                ..*old(self)
            }),
            is_action && old(self).status is Dead ==> is_initial(
                *final(self),
                old(self).width,
                old(self).height,
            ),
    {
        if is_action {
            match self.status {
                Status::Before => self.status = Status::During,
                Status::During => self.worm_dir = Direction::Down,
                Status::Dead => {
                    *self = Game::new(self.width, self.height);
                },
            }
        }
    }

    /// True exactly when `update_dt` may be called with these arguments:
    /// either no tick would run, or the score has headroom and the column
    /// the tick would append keeps the gap open (with room for a spawned
    /// prize when the draw spawns one).  An unverified caller tests this
    /// before advancing and fails loudly on a violation, as the spawn
    /// geometry check of the game rules demands.
    pub fn update_ready(&self, dt_micros: u64, r_spawn: u64) -> (ok: bool)
        requires
            self.wf(),
        ensures
            ok == {
                &&& (self.tick_runs(dt_micros) ==> self.score + 11 + 10 * self.prizes@.len()
                    <= i64::MAX)
                &&& (self.tick_runs(dt_micros) ==> self.next_gap() >= 1)
                &&& (self.tick_runs(dt_micros) && spawn_happens(r_spawn) ==> self.next_gap()
                    >= 2)
            },
    {
        match self.status {
            Status::During => {
                let will_run = if dt_micros > TICK_MICROS {
                    true
                } else {
                    self.dt_acc + dt_micros > TICK_MICROS
                };
                if !will_run {
                    true
                } else {
                    let headroom = i64::MAX - 11 - self.score;
                    let score_ok = headroom >= 0 && (self.prizes.len() as u64) <= (headroom
                        as u64) / 10;
                    proof {
                        let h = i64::MAX - 11 - self.score as int;
                        if h >= 0 {
                            vstd::arithmetic::div_mod::lemma_fundamental_div_mod(h, 10);
                            vstd::arithmetic::div_mod::lemma_mod_division_less_than_divisor(h, 10);
                            if 10 * self.prizes@.len() as int <= h {
                                vstd::arithmetic::div_mod::lemma_div_is_ordered(
                                    10 * self.prizes@.len() as int,
                                    h,
                                    10,
                                );
                            }
                            vstd::arithmetic::div_mod::lemma_div_by_multiple(
                                self.prizes@.len() as int,
                                10,
                            );
                        }
                        assert(score_ok == (self.score + 11 + 10 * self.prizes@.len()
                            <= i64::MAX));
                    }
                    let t_last = self.cave_top[self.cave_top.len() - 1];
                    let b_last = self.cave_bottom[self.cave_bottom.len() - 1];
                    let wall = self.is_wall_collided();
                    let thunk: i32 = match (wall, self.cave_dir) {
                        (true, Direction::Up) => -1,
                        _ => 0,
                    };
                    let gap = b_last - t_last + thunk;
                    assert(gap as int == self.next_gap());
                    let need: i32 = if r_spawn % 10 > 8 {
                        2
                    } else {
                        1
                    };
                    score_ok && gap >= need
                }
            },
            _ => true,
        }
    }

    /// Shade level the trail square appended this tick would get.
    pub fn get_worm_shade(&self) -> (s: i32)
        requires
            -16 <= self.worm_vel <= 16,
        ensures
            s == shade_of_vel(self.worm_vel as int),
    {
        16 + self.worm_vel
    }
}

} // verus!
