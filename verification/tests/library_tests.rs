use um_game_of_life::cli::{parse_args, seed_grid, AppConfig, ArgError, SeedPattern, SimMode};
use um_game_of_life::frame_loop::{
    start_tick_index, tick_micros, tick_rate, DoubleBuffer, FramePlan, LoopAction, LoopEvent, LoopState,
    StepBuffers, TICK_RATE_COUNT,
};
use um_game_of_life::game_of_life::{
    count_alive_neighbors, count_alive_neighbors_wh, index, index_wh, seed_glider, spawn_glider_wh, step,
    step_wh, GridConfig, ALIVE, DYING, GRID_HEIGHT, GRID_SIZE, GRID_WIDTH,
};
use um_game_of_life::physarum::{agent_buffer_bytes, species_for_agent, TrailLayout, NUM_SPECIES};
use um_game_of_life::spawn::{GliderSpawner, MAX_SPAWN_DELAY_SECS, MIN_SPAWN_DELAY_SECS};

fn args(list: &[&str]) -> Vec<String> {
    let mut v = vec!["prog".to_string()];
    for a in list {
        v.push(a.to_string());
    }
    v
}

fn alive_count(grid: &[u8]) -> usize {
    grid.iter().filter(|&&v| v == ALIVE).count()
}

// --- Command line ---

#[test]
fn parse_args_defaults() {
    let cfg = parse_args(&args(&[])).unwrap();
    assert_eq!(
        cfg,
        AppConfig { seed: SeedPattern::RPentomino, wallpaper: false, mode: SimMode::GameOfLife }
    );
}

#[test]
fn parse_args_all_options() {
    let cfg = parse_args(&args(&["--mode", "physarum", "--wallpaper", "--seed", "glider"])).unwrap();
    assert_eq!(cfg, AppConfig { seed: SeedPattern::Glider, wallpaper: true, mode: SimMode::Physarum });
    let cfg = parse_args(&args(&["--seed", "blinker", "--mode", "gol"])).unwrap();
    assert_eq!(cfg, AppConfig { seed: SeedPattern::Blinker, wallpaper: false, mode: SimMode::GameOfLife });
}

#[test]
fn parse_args_ignores_unknown_and_last_wins() {
    let cfg = parse_args(&args(&["--verbose", "--seed", "glider", "x", "--seed", "r-pentomino"])).unwrap();
    assert_eq!(cfg.seed, SeedPattern::RPentomino);
    // the program name is never read as an option
    let v = vec!["--wallpaper".to_string()];
    assert_eq!(parse_args(&v).unwrap().wallpaper, false);
}

#[test]
fn parse_args_unknown_mode() {
    match parse_args(&args(&["--mode", "unknown"])) {
        Err(ArgError::UnknownMode(s)) => assert_eq!(s, "unknown"),
        other => panic!("unexpected {:?}", other),
    }
}

#[test]
fn parse_args_missing_mode_value() {
    assert!(matches!(parse_args(&args(&["--mode"])), Err(ArgError::MissingModeValue)));
}

#[test]
fn parse_args_unknown_seed() {
    match parse_args(&args(&["--seed", "unknown-name"])) {
        Err(ArgError::UnknownSeed(s)) => assert_eq!(s, "unknown-name"),
        other => panic!("unexpected {:?}", other),
    }
}

#[test]
fn parse_args_missing_seed_value() {
    assert!(matches!(parse_args(&args(&["--wallpaper", "--seed"])), Err(ArgError::MissingSeedValue)));
}

#[test]
fn seed_grid_places_pattern_at_centre() {
    let mut grid = vec![0u8; 32 * 20];
    seed_grid(&mut grid, SeedPattern::Blinker, 32, 20);
    assert_eq!(alive_count(&grid), 3);
    assert_eq!(grid[index(15, 10, 32)], ALIVE);
    assert_eq!(grid[index(16, 10, 32)], ALIVE);
    assert_eq!(grid[index(17, 10, 32)], ALIVE);
    let mut grid = vec![0u8; 32 * 20];
    seed_grid(&mut grid, SeedPattern::RPentomino, 32, 20);
    assert_eq!(alive_count(&grid), 5);
    assert_eq!(grid[index(17, 9, 32)], ALIVE);
    let mut grid = vec![0u8; 32 * 20];
    seed_grid(&mut grid, SeedPattern::Glider, 32, 20);
    assert_eq!(alive_count(&grid), 5);
    assert_eq!(grid[index(15, 11, 32)], ALIVE);
}

// --- Grid ---

#[test]
fn grid_constants_and_configs() {
    assert_eq!(GRID_SIZE, GRID_WIDTH * GRID_HEIGHT);
    let gc = GridConfig::with_columns(410);
    assert_eq!((gc.width, gc.height), (410, 256));
    let gc = GridConfig::with_columns(0);
    assert_eq!((gc.width, gc.height), (1, 256));
    assert_eq!(GridConfig { width: 3, height: 7 }.size(), 21);
}

#[test]
fn index_variants_agree() {
    assert_eq!(index_wh(3, 2, 10), 23);
    assert_eq!(index(3, 2, 10), index_wh(3, 2, 10));
}

#[test]
fn neighbor_count_wraps_on_small_grid() {
    // 3x3 grid, all alive: every cell sees its 8 neighbours
    let grid = vec![ALIVE; 9];
    assert_eq!(count_alive_neighbors(&grid, 1, 1, 3, 3), 8);
    assert_eq!(count_alive_neighbors_wh(&grid, 0, 0, 3, 3), 8);
    // coordinates outside the grid wrap
    assert_eq!(count_alive_neighbors(&grid, 4, 7, 3, 3), 8);
    // one-column grid: the two scan positions that land on the cell's own
    // column in its own row are both skipped, the seven others count
    let grid = vec![ALIVE; 4];
    assert_eq!(count_alive_neighbors(&grid, 0, 1, 1, 4), 7);
}

#[test]
fn step_leaves_cells_past_the_grid() {
    let mut src = vec![0u8; 30];
    src[index(1, 0, 5)] = ALIVE;
    src[index(1, 1, 5)] = ALIVE;
    src[index(1, 2, 5)] = ALIVE;
    let mut dst = vec![7u8; 30];
    step(&src, &mut dst, 5, 5);
    assert_eq!(&dst[25..], &[7u8; 5]);
    assert_eq!(dst[index(0, 1, 5)], ALIVE);
    assert_eq!(dst[index(2, 1, 5)], ALIVE);
    assert_eq!(dst[index(1, 0, 5)], DYING);
}

#[test]
fn step_wh_fade_to_zero() {
    let mut src = vec![0u8; 16];
    src[5] = 40;
    let mut dst = vec![0u8; 16];
    step_wh(&src, &mut dst, 4, 4);
    assert_eq!(dst[5], 0);
    src[5] = 64;
    step_wh(&src, &mut dst, 4, 4);
    assert_eq!(dst[5], 0);
    src[5] = 192;
    step_wh(&src, &mut dst, 4, 4);
    assert_eq!(dst[5], 128);
}

#[test]
fn glider_moves_on_the_torus() {
    // a glider near the corner crosses the edge and comes back whole
    let (w, h) = (8, 6);
    let mut a = vec![0u8; w * h];
    seed_glider(&mut a, 6, 4, w, h);
    let mut b = vec![0u8; w * h];
    for _ in 0..4 {
        step(&a, &mut b, w, h);
        step(&b, &mut a, w, h);
    }
    // eight steps move the glider by (2, 2)
    let mut expected = vec![0u8; w * h];
    seed_glider(&mut expected, 0, 0, w, h);
    let alive: Vec<usize> = (0..w * h).filter(|&i| a[i] == ALIVE).collect();
    let want: Vec<usize> = (0..w * h).filter(|&i| expected[i] == ALIVE).collect();
    assert_eq!(alive, want);
}

#[test]
fn spawn_glider_rotation_is_taken_modulo_four() {
    let mut a = vec![0u8; 100];
    let mut b = vec![0u8; 100];
    spawn_glider_wh(&mut a, 4, 4, 1, 10, 10);
    spawn_glider_wh(&mut b, 4, 4, 9, 10, 10);
    assert_eq!(a, b);
}

// --- Frame loop ---

#[test]
fn tick_rates() {
    let rates: Vec<u64> = (0..TICK_RATE_COUNT).map(tick_rate).collect();
    assert_eq!(rates, vec![1, 2, 5, 10, 20, 30, 60, 120]);
    assert_eq!(tick_micros(3), 100_000);
    assert_eq!(tick_micros(7), 8_333);
    assert_eq!(start_tick_index(SimMode::GameOfLife), 3);
    assert_eq!(start_tick_index(SimMode::Physarum), 5);
}

#[test]
fn speed_keys_stay_within_range() {
    let s = LoopState::new(7);
    let (s2, a) = s.handle_event(LoopEvent::ArrowUpPressed);
    assert_eq!(s2.tick_index, 7);
    assert_eq!(a, LoopAction::ReportSpeed(120));
    let s = LoopState::new(0);
    let (s2, a) = s.handle_event(LoopEvent::ArrowDownPressed);
    assert_eq!(s2.tick_index, 0);
    assert_eq!(a, LoopAction::ReportSpeed(1));
    let (s3, a) = s2.handle_event(LoopEvent::ArrowUpPressed);
    assert_eq!(s3.tick_index, 1);
    assert_eq!(a, LoopAction::ReportSpeed(2));
    assert_eq!(s3.wait_micros(), 500_000);
}

#[test]
fn redraw_is_requested_once_per_due_step() {
    let s = LoopState::new(3);
    let (s, a) = s.handle_event(LoopEvent::AboutToWait { sigterm: false, elapsed_micros: 99_999 });
    assert_eq!(a, LoopAction::Nothing);
    let (s, a) = s.handle_event(LoopEvent::AboutToWait { sigterm: false, elapsed_micros: 100_000 });
    assert_eq!(a, LoopAction::RequestRedraw);
    assert!(s.redraw_pending);
    let (s, a) = s.handle_event(LoopEvent::AboutToWait { sigterm: false, elapsed_micros: 200_000 });
    assert_eq!(a, LoopAction::Nothing);
    let (s, a) = s.handle_event(LoopEvent::RedrawRequested);
    assert_eq!(a, LoopAction::StepAndRender);
    assert!(!s.redraw_pending);
    let (_, a) = s.handle_event(LoopEvent::AboutToWait { sigterm: true, elapsed_micros: 0 });
    assert_eq!(a, LoopAction::Exit);
    assert_eq!(s.handle_event(LoopEvent::EscapePressed).1, LoopAction::Exit);
    assert_eq!(s.handle_event(LoopEvent::CloseRequested).1, LoopAction::Exit);
    assert_eq!(s.handle_event(LoopEvent::Resized).1, LoopAction::SyncDrawableSize);
    assert_eq!(s.handle_event(LoopEvent::OtherKeyPressed).1, LoopAction::Nothing);
}

#[test]
fn double_buffer_plans() {
    let mut b = DoubleBuffer::new();
    assert_eq!(b.current(), 0);
    assert_eq!(b.plan(true), FramePlan { compute: Some(StepBuffers { read: 0, write: 1 }), render: 1 });
    assert_eq!(b.plan(false), FramePlan { compute: None, render: 0 });
    b.finish_frame(false);
    assert_eq!(b.current(), 0);
    b.finish_frame(true);
    assert_eq!((b.current(), b.read_index(), b.write_index()), (1, 1, 0));
    b.swap();
    assert_eq!(b.current(), 0);
}

// --- Physarum layout ---

#[test]
fn trail_layout_sizes_and_indices() {
    let l = TrailLayout::new(64, 64);
    assert_eq!(l.num_species, NUM_SPECIES);
    assert_eq!(l.plane_size(), 4096);
    assert_eq!(l.trail_len(), 3 * 4096);
    assert_eq!(l.trail_buffer_bytes(), 3 * 4096 * 4);
    // deposit of a species-0 agent that moved to (33, 32)
    assert_eq!(l.cell_index(0, 33, 32), 32 * 64 + 33);
    assert_eq!(l.cell_index(2, 1, 0), 2 * 4096 + 1);
    let l = TrailLayout::new(8, 8);
    assert_eq!(l.neighbor_index(0, 0, 0, -1, -1), 7 * 8 + 7);
    assert_eq!(l.neighbor_index(1, 7, 3, 1, 0), 64 + 3 * 8);
    assert_eq!(l.neighbor_index(2, 4, 4, 0, 1), 128 + 5 * 8 + 4);
}

#[test]
fn agents_cycle_through_species() {
    let s: Vec<u32> = (0..7).map(species_for_agent).collect();
    assert_eq!(s, vec![0, 1, 2, 0, 1, 2, 0]);
    assert_eq!(agent_buffer_bytes(0), 16);
    assert_eq!(agent_buffer_bytes(300), 4800);
}

// --- Random spawning ---

#[test]
fn spawner_stays_within_bounds() {
    let mut sp = GliderSpawner::new();
    let mut delays = std::collections::BTreeSet::new();
    let mut places = std::collections::BTreeSet::new();
    for _ in 0..50 {
        let d = sp.next_delay_secs();
        delays.insert(d);
        assert!((MIN_SPAWN_DELAY_SECS..=MAX_SPAWN_DELAY_SECS).contains(&d));
        let mut grid = vec![0u8; 12 * 9];
        let g = sp.spawn(&mut grid, 12, 9);
        assert!(g.cx < 12 && g.cy < 9 && g.rotation < 4);
        places.insert((g.cx, g.cy, g.rotation));
        assert_eq!(alive_count(&grid), 5);
        let mut again = vec![0u8; 12 * 9];
        spawn_glider_wh(&mut again, g.cx, g.cy, g.rotation, 12, 9);
        assert_eq!(grid, again);
    }
    // draws vary: fifty draws from 21 delays and 432 placements never all agree
    assert!(delays.len() > 1);
    assert!(places.len() > 1);
}

#[test]
fn placing_twice_is_placing_once_and_keeps_live_cells() {
    let mut once = vec![0u8; 64];
    once[0] = ALIVE;
    once[63] = 9;
    let mut twice = once.clone();
    seed_glider(&mut once, 3, 3, 8, 8);
    seed_glider(&mut twice, 3, 3, 8, 8);
    seed_glider(&mut twice, 3, 3, 8, 8);
    assert_eq!(once, twice);
    assert_eq!(once[0], ALIVE);
    assert_eq!(once[63], 9);
    assert_eq!(alive_count(&once), 6);
}

#[test]
fn index_is_row_major_and_distinct() {
    let mut seen = std::collections::BTreeSet::new();
    for y in 0..4 {
        for x in 0..5 {
            let i = index(x, y, 5);
            assert!(i < 20);
            assert!(seen.insert(i));
        }
    }
}
