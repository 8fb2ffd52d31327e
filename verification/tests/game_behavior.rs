use gravity_worm::game::{Direction, Game, Status};

/// Microsecond count that always pushes the accumulator past one tick.
const STEP: u64 = 62501;

/// Runs one tick with the given random draws.
fn tick(g: &mut Game, r_spawn: u64, r_row: u64) {
    g.update_dt(STEP, r_spawn, r_row);
}

/// Steers toward the vertical middle so the worm survives long runs, then
/// runs one spawn-free tick.
fn autopilot_tick(g: &mut Game) {
    let h8 = g.worm_height[g.worm_height.len() - 1].0;
    if h8 > 512 {
        g.press_btn(true);
    } else {
        g.release_btn(true);
    }
    tick(g, 0, 0);
}

#[test]
fn fresh_game_dimensions() {
    let g = Game::new(512, 512);
    assert_eq!(g.width, 512);
    assert_eq!(g.height, 512);
    assert_eq!(g.block_width, 4);
    assert_eq!(g.cave_height, 128);
    assert_eq!(g.cave_top.len(), 128);
    assert_eq!(g.cave_bottom.len(), 128);
    assert_eq!(g.worm_height.len(), 64);
    assert!(g.cave_top.iter().all(|&t| t == 16));
    assert!(g.cave_bottom.iter().all(|&b| b == 112));
    // Initial height is half the grid, 64 blocks, kept in eighths.
    assert!(g.worm_height.iter().all(|&(h, s)| h == 64 * 8 && s == 16));
    assert!(g.prizes.is_empty());
    assert_eq!(g.status, Status::Before);
    assert_eq!(g.cave_dir, Direction::Up);
    assert_eq!(g.worm_dir, Direction::Down);
    assert_eq!(g.worm_vel, -16);
    assert_eq!(g.score, 0);
    assert_eq!(g.dt_acc, 0);
}

#[test]
fn fresh_game_smallest_grid() {
    let g = Game::new(128, 2);
    assert_eq!(g.block_width, 1);
    assert_eq!(g.cave_height, 2);
    assert_eq!(g.cave_top.len(), 128);
    assert!(g.cave_top.iter().all(|&t| t == 0));
    assert!(g.cave_bottom.iter().all(|&b| b == 1));
    assert_eq!(g.worm_height.len(), 64);
    assert!(g.worm_height.iter().all(|&(h, _)| h == 8));
}

#[test]
fn advance_before_start_changes_nothing() {
    let fresh = Game::new(512, 512);
    let mut g = Game::new(512, 512);
    g.update_dt(1, 9, 77);
    g.update_dt(STEP, 9, 77);
    g.update_dt(u64::MAX, 9, 77);
    assert_eq!(g.status, fresh.status);
    assert_eq!(g.dt_acc, fresh.dt_acc);
    assert_eq!(g.score, fresh.score);
    assert_eq!(g.cave_top, fresh.cave_top);
    assert_eq!(g.cave_bottom, fresh.cave_bottom);
    assert_eq!(g.worm_height, fresh.worm_height);
    assert_eq!(g.prizes, fresh.prizes);
    assert_eq!(g.worm_vel, fresh.worm_vel);
    assert_eq!(g.cave_dir, fresh.cave_dir);
    assert_eq!(g.worm_dir, fresh.worm_dir);
}

#[test]
fn sub_threshold_time_accumulates_without_a_tick() {
    let mut g = Game::new(512, 512);
    g.release_btn(true);
    g.update_dt(30000, 9, 77);
    assert_eq!(g.dt_acc, 30000);
    assert_eq!(g.score, 0);
    assert!(g.prizes.is_empty());
    g.update_dt(30000, 9, 77);
    assert_eq!(g.dt_acc, 60000);
    assert_eq!(g.score, 0);
    // The third call passes the 62500 microsecond threshold: one tick runs
    // and the accumulator resets to zero.
    g.update_dt(30000, 0, 0);
    assert_eq!(g.dt_acc, 0);
    assert_eq!(g.score, 1);
}

#[test]
fn release_starts_the_run_then_sets_falling() {
    let mut g = Game::new(512, 512);
    g.release_btn(true);
    assert_eq!(g.status, Status::During);
    g.press_btn(true);
    assert_eq!(g.worm_dir, Direction::Up);
    g.release_btn(true);
    assert_eq!(g.status, Status::During);
    assert_eq!(g.worm_dir, Direction::Down);
}

#[test]
fn press_is_ignored_outside_active_run() {
    let mut g = Game::new(512, 512);
    g.press_btn(true);
    assert_eq!(g.status, Status::Before);
    assert_eq!(g.worm_dir, Direction::Down);
    g.press_btn(false);
    assert_eq!(g.worm_dir, Direction::Down);
    g.release_btn(true);
    g.press_btn(false);
    assert_eq!(g.worm_dir, Direction::Down);
}

#[test]
fn falling_worm_dies_on_the_bottom_wall() {
    let mut g = Game::new(512, 512);
    g.release_btn(true);
    g.release_btn(true);
    assert_eq!(g.worm_dir, Direction::Down);
    let mut heights = Vec::new();
    let mut ticks: u32 = 0;
    while g.status == Status::During && ticks < 200 {
        tick(&mut g, 0, 0);
        heights.push(g.worm_height[63].0);
        ticks += 1;
    }
    assert_eq!(g.status, Status::Dead);
    // Death came from the bottom boundary at the worm's column, 63.
    let h8 = g.worm_height[63].0;
    assert!(h8 > g.cave_bottom[63] * 8);
    assert!(h8 >= g.cave_top[63] * 8);
    // Once the climb momentum is spent the height only grows.
    let lowest = heights.iter().position(|&h| h == *heights.iter().min().unwrap()).unwrap();
    assert!(heights[lowest..].windows(2).all(|w| w[0] <= w[1]));
}

#[test]
fn score_freezes_once_dead() {
    let mut g = Game::new(512, 512);
    g.release_btn(true);
    g.release_btn(true);
    let mut ticks: u32 = 0;
    while g.status == Status::During && ticks < 200 {
        tick(&mut g, 0, 0);
        ticks += 1;
    }
    assert_eq!(g.status, Status::Dead);
    let final_score = g.score;
    assert!(final_score > 0);
    for _ in 0..10 {
        tick(&mut g, 9, 77);
        g.press_btn(true);
        assert_eq!(g.score, final_score);
        assert_eq!(g.status, Status::Dead);
    }
}

#[test]
fn score_never_decreases_during_run() {
    let mut g = Game::new(512, 512);
    g.release_btn(true);
    let mut last = g.score;
    for i in 0..300 {
        if g.status != Status::During {
            break;
        }
        let h8 = g.worm_height[g.worm_height.len() - 1].0;
        if h8 > 512 {
            g.press_btn(true);
        } else {
            g.release_btn(true);
        }
        tick(&mut g, if i % 7 == 0 { 9 } else { 0 }, (i * 31) % 97);
        assert!(g.score >= last);
        last = g.score;
    }
}

#[test]
fn reset_after_death_equals_fresh_game() {
    let mut g = Game::new(512, 512);
    g.release_btn(true);
    g.release_btn(true);
    let mut ticks: u32 = 0;
    while g.status == Status::During && ticks < 200 {
        tick(&mut g, 0, 0);
        ticks += 1;
    }
    assert_eq!(g.status, Status::Dead);
    assert!(g.score > 0);
    g.release_btn(true);
    let fresh = Game::new(512, 512);
    assert_eq!(g.width, fresh.width);
    assert_eq!(g.height, fresh.height);
    assert_eq!(g.block_width, fresh.block_width);
    assert_eq!(g.cave_height, fresh.cave_height);
    assert_eq!(g.cave_top, fresh.cave_top);
    assert_eq!(g.cave_bottom, fresh.cave_bottom);
    assert_eq!(g.prizes, fresh.prizes);
    assert_eq!(g.worm_height, fresh.worm_height);
    assert_eq!(g.cave_dir, fresh.cave_dir);
    assert_eq!(g.worm_dir, fresh.worm_dir);
    assert_eq!(g.worm_vel, fresh.worm_vel);
    assert_eq!(g.score, fresh.score);
    assert_eq!(g.dt_acc, fresh.dt_acc);
    assert_eq!(g.status, fresh.status);
}

#[test]
fn release_with_other_button_changes_nothing() {
    let mut g = Game::new(512, 512);
    g.release_btn(false);
    assert_eq!(g.status, Status::Before);
    g.release_btn(true);
    g.press_btn(true);
    g.release_btn(false);
    assert_eq!(g.worm_dir, Direction::Up);
}

#[test]
fn spawn_draw_creates_prize_inside_gap() {
    let mut g = Game::new(512, 512);
    g.release_btn(true);
    // No bounce on the first tick, so the appended boundaries are 15 and
    // 111, and the spawn row is top + 1 + (draw mod (gap - 1)).
    tick(&mut g, 9, 50);
    assert_eq!(g.prizes.len(), 1);
    assert_eq!(g.prizes[0], (127, 16 + 50 % 95));
    assert!(g.prizes[0].1 > 15 && g.prizes[0].1 < 111);
}

#[test]
fn no_spawn_draw_creates_nothing() {
    let mut g = Game::new(512, 512);
    g.release_btn(true);
    for r in 0..9 {
        tick(&mut g, r, 50);
        assert!(g.prizes.is_empty());
    }
}

#[test]
fn prize_scrolls_one_column_per_tick_and_is_culled_after_129() {
    let mut g = Game::new(512, 512);
    g.release_btn(true);
    // Spawn at column 128; the same tick's scroll step moves it to 127.
    tick(&mut g, 9, 0);
    assert_eq!(g.prizes.len(), 1);
    assert_eq!(g.prizes[0], (127, 16));
    for k in 2..=128u32 {
        autopilot_tick(&mut g);
        assert_eq!(g.status, Status::During);
        assert_eq!(g.prizes.len(), 1, "prize culled early at tick {k}");
        assert_eq!(g.prizes[0].0, 128 - k as i32);
        assert_eq!(g.prizes[0].1, 16);
    }
    assert_eq!(g.prizes[0].0, 0);
    // Tick 129: the column goes negative and the prize is culled.
    autopilot_tick(&mut g);
    assert!(g.prizes.is_empty());
}

#[test]
fn prize_near_worm_is_collected_for_ten_points() {
    let mut g = Game::new(512, 512);
    g.release_btn(true);
    g.worm_vel = 0;
    // After the scroll step this prize sits at column 64 (the worm's
    // column) and row 64 (one eighth away from the worm height).
    g.prizes.push((65, 64));
    tick(&mut g, 0, 0);
    assert!(g.prizes.is_empty());
    assert_eq!(g.score, 11);
    assert_eq!(g.worm_height[63].0, 513);
}

#[test]
fn distant_prize_is_not_collected() {
    let mut g = Game::new(512, 512);
    g.release_btn(true);
    g.worm_vel = 0;
    g.prizes.push((67, 64));
    g.prizes.push((65, 70));
    tick(&mut g, 0, 0);
    assert_eq!(g.prizes, vec![(66, 64), (64, 70)]);
    assert_eq!(g.score, 1);
}

#[test]
fn cave_gap_stays_open_across_long_run() {
    let mut g = Game::new(512, 512);
    g.release_btn(true);
    for _ in 0..300 {
        autopilot_tick(&mut g);
        for i in 0..g.cave_top.len() {
            assert!(g.cave_top[i] < g.cave_bottom[i]);
            assert!(g.cave_top[i] >= 0);
            assert!(g.cave_bottom[i] <= g.cave_height - 1);
        }
    }
    assert_eq!(g.status, Status::During);
}

#[test]
fn velocity_stays_clamped() {
    let mut g = Game::new(512, 512);
    g.release_btn(true);
    g.release_btn(true);
    for t in 0..40 {
        tick(&mut g, 0, 0);
        assert!(g.worm_vel >= -16 && g.worm_vel <= 16);
        if t >= 32 {
            assert_eq!(g.worm_vel, 16);
        }
    }
    // Hold the button: the velocity walks back to the climb bound.
    g.worm_height[63].0 = 800;
    for _ in 0..40 {
        g.press_btn(true);
        tick(&mut g, 0, 0);
        assert!(g.worm_vel >= -16 && g.worm_vel <= 16);
        if g.status != Status::During {
            break;
        }
    }
}

#[test]
fn sequence_lengths_never_change() {
    let mut g = Game::new(512, 512);
    g.release_btn(true);
    for i in 0..300 {
        if i % 3 == 0 {
            g.press_btn(true);
        }
        if i % 5 == 0 {
            g.release_btn(true);
        }
        autopilot_tick(&mut g);
        assert_eq!(g.cave_top.len(), 128);
        assert_eq!(g.cave_bottom.len(), 128);
        assert_eq!(g.worm_height.len(), 64);
    }
}

#[test]
fn wall_bounce_flips_direction_with_bottom_thunk() {
    let mut g = Game::new(512, 512);
    g.release_btn(true);
    // The top wall starts at 16 moving up: it reaches 0 after 16 ticks and
    // the next tick bounces, with the bottom wall held back one row.
    for _ in 0..16 {
        autopilot_tick(&mut g);
    }
    assert_eq!(g.cave_dir, Direction::Up);
    assert_eq!(g.cave_top[127], 0);
    assert_eq!(g.cave_bottom[127], 96);
    autopilot_tick(&mut g);
    assert_eq!(g.cave_dir, Direction::Down);
    assert_eq!(g.cave_top[127], 1);
    assert_eq!(g.cave_bottom[127], 96);
}

#[test]
fn update_ready_accepts_ordinary_states() {
    let mut g = Game::new(512, 512);
    assert!(g.update_ready(u64::MAX, 9));
    g.release_btn(true);
    assert!(g.update_ready(1, 9));
    assert!(g.update_ready(STEP, 9));
    assert!(g.update_ready(STEP, 0));
}

#[test]
fn update_ready_rejects_score_overflow() {
    let mut g = Game::new(512, 512);
    g.release_btn(true);
    g.score = i64::MAX - 5;
    assert!(!g.update_ready(STEP, 0));
    assert!(g.update_ready(1, 0));
}

#[test]
fn update_ready_rejects_closing_gap() {
    let mut g = Game::new(128, 2);
    g.release_btn(true);
    // The top wall already touches the edge while moving up, so the next
    // tick bounces and the thunk closes the two-row gap completely.
    assert!(!g.update_ready(STEP, 0));
    assert!(!g.update_ready(STEP, 9));
}

#[test]
fn direction_scalars() {
    assert_eq!(Direction::Up.to_scalar(), -1);
    assert_eq!(Direction::Down.to_scalar(), 1);
}

#[test]
fn worm_shade_tracks_velocity() {
    let mut g = Game::new(512, 512);
    assert_eq!(g.get_worm_shade(), 0);
    g.worm_vel = 0;
    assert_eq!(g.get_worm_shade(), 16);
    g.worm_vel = 16;
    assert_eq!(g.get_worm_shade(), 32);
}
