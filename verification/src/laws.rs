//! Global properties of the simulation, proved once and for all.
//!
//! The ones that speak about a single call (no state change while the run
//! has not started, score monotone and frozen after death, fixed sequence
//! lengths, the exact reset state) are stated directly in the contracts of
//! `Game::update_dt` and `Game::release_btn`; here stand the properties
//! that relate the states around one tick.

use vstd::prelude::*;

verus! {

use crate::game::Game;
use crate::game::is_initial;

/// The cave gap never closes across a tick: if every column is open before
/// the tick, and the column the tick appends is open (`next_gap() >= 1` —
/// an Up-to-Down bounce narrows that column's gap by one row, so a bounce
/// at a single-row gap is the one state this premiss excludes), then every
/// column is open after the tick.
pub proof fn lemma_tick_gap_open(pre: Game, post: Game, r_spawn: u64, r_row: u64)
    requires
        pre.wf(),
        pre.next_gap() >= 1,
        Game::tick_rel(pre, post, r_spawn, r_row),
    ensures
        forall|i: int|
            0 <= i < post.cave_top@.len() ==> #[trigger] post.cave_top@[i] < post.cave_bottom@[i],
{
    assert(0 <= pre.cave_top@.last() < pre.cave_bottom@.last() <= pre.cave_height - 1);
    assert forall|i: int|
        0 <= i < post.cave_top@.len() implies #[trigger] post.cave_top@[i]
        < post.cave_bottom@[i] by {
        if i < post.cave_top@.len() - 1 {
            assert(post.cave_top@[i] == pre.cave_top@[i + 1]);
            assert(post.cave_bottom@[i] == pre.cave_bottom@[i + 1]);
        } else {
            assert(post.cave_top@[i] == (pre.tick_top_last() as i32));
            assert(post.cave_bottom@[i] == (pre.tick_bottom_last() as i32));
        }
    }
}

/// The worm velocity stays within the clamp bound across every tick,
/// whatever it was asked to do.
pub proof fn lemma_tick_vel_bounded(pre: Game, post: Game, r_spawn: u64, r_row: u64)
    requires
        Game::tick_rel(pre, post, r_spawn, r_row),
    ensures
        -16 <= post.worm_vel <= 16,
{
}

/// A restart after death is a fresh construction: two states that are
/// initial for the same dimensions agree on every field (sequences
/// compared as sequences).
pub proof fn lemma_reset_matches_fresh(a: Game, b: Game, x: u32, y: u32)
    requires
        is_initial(a, x, y),
        is_initial(b, x, y),
    ensures
        a.width == b.width,
        a.height == b.height,
        a.block_width == b.block_width,
        a.cave_height == b.cave_height,
        a.cave_top@ == b.cave_top@,
        a.cave_bottom@ == b.cave_bottom@,
        a.prizes@ == b.prizes@,
        a.worm_height@ == b.worm_height@,
        a.cave_dir == b.cave_dir,
        a.worm_dir == b.worm_dir,
        a.worm_vel == b.worm_vel,
        a.score == b.score,
        a.dt_acc == b.dt_acc,
        a.status == b.status,
{
}

} // verus!
