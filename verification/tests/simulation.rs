use gpu_life::interact::CellColor;
use gpu_life::rules::GameRules;
use gpu_life::sim::SimulationCore;

fn cells_of(region: &[u32], width: u32) -> Vec<(i64, i64)> {
    let mut out = Vec::new();
    for (i, &v) in region.iter().enumerate() {
        if v > 0 {
            out.push(((i as i64) % (width as i64), (i as i64) / (width as i64)));
        }
    }
    out
}

fn run_generations(core: &mut SimulationCore, n: u32) {
    for _ in 0..n {
        let paint = core.paint_value;
        core.engine.apply(&mut core.grid, paint);
    }
}

#[test]
fn both_regions_have_width_times_height_cells() {
    for (w, h) in [(1u32, 1u32), (7, 3), (10, 10), (33, 2)] {
        let core = SimulationCore::initialize(w, h);
        assert_eq!(core.grid.current_input().len(), (w * h) as usize);
        assert_eq!(core.grid.current_output().len(), (w * h) as usize);
    }
}

#[test]
fn all_dead_grid_stays_all_dead() {
    // no spontaneous births: birth_count > 0 on an empty grid
    let mut core = SimulationCore::initialize(9, 9);
    assert!(core.grid.current_input().iter().all(|&v| v == 0));
    for rules in [GameRules::conway(), GameRules::high_life(), GameRules::new(1, 8, 1)] {
        core.set_rule_parameters(rules);
        run_generations(&mut core, 3);
        assert!(core.grid.current_input().iter().all(|&v| v == 0));
    }
}

#[test]
fn glider_translates_by_one_one_after_four_generations() {
    // a 10x10 grid starts all dead (the seed needs more than 10 cells a side)
    let mut core = SimulationCore::initialize(10, 10);
    core.place_glider(3, 3);
    let mut start = cells_of(core.grid.current_input(), 10);
    start.sort();
    assert_eq!(start, vec![(3, 4), (4, 5), (5, 3), (5, 4), (5, 5)]);
    run_generations(&mut core, 4);
    let mut got = cells_of(core.grid.current_input(), 10);
    got.sort();
    let mut expected: Vec<(i64, i64)> = start.iter().map(|&(x, y)| (x + 1, y + 1)).collect();
    expected.sort();
    assert_eq!(got, expected);
}

#[test]
fn blinker_oscillates_with_period_two() {
    let mut core = SimulationCore::initialize(10, 10);
    for y in [3u32, 4, 5] {
        core.grid.write_cell(4, y, 1);
    }
    let original = core.grid.current_input().clone();
    run_generations(&mut core, 1);
    let mut mid = cells_of(core.grid.current_input(), 10);
    mid.sort();
    assert_eq!(mid, vec![(3, 4), (4, 4), (5, 4)]);
    run_generations(&mut core, 1);
    assert_eq!(core.grid.current_input(), &original);
}

#[test]
fn surviving_cell_keeps_its_color_and_births_take_paint() {
    // a block of red cells is stable; no births, so paint is not used
    let mut core = SimulationCore::initialize(10, 10);
    for (x, y) in [(4u32, 4u32), (5, 4), (4, 5), (5, 5)] {
        core.grid.write_cell(x, y, 3);
    }
    run_generations(&mut core, 1);
    let region = core.grid.current_input();
    assert_eq!(region[(4 * 10 + 4) as usize], 3);
    assert_eq!(region[(4 * 10 + 5) as usize], 3);
    assert_eq!(region[(5 * 10 + 4) as usize], 3);
    assert_eq!(region[(5 * 10 + 5) as usize], 3);

    // a blinker's newly-born tips take the paint value, the survivor keeps its own
    let mut core = SimulationCore::initialize(10, 10);
    core.set_paint_color(CellColor::Blue);
    for y in [3u32, 4, 5] {
        core.grid.write_cell(4, y, 1);
    }
    run_generations(&mut core, 1);
    let region = core.grid.current_input();
    assert_eq!(region[(4 * 10 + 4) as usize], 1); // survivor keeps white
    assert_eq!(region[(4 * 10 + 3) as usize], 5); // born blue
    assert_eq!(region[(4 * 10 + 5) as usize], 5); // born blue
}

#[test]
fn resize_with_zero_dimension_is_rejected() {
    let mut core = SimulationCore::initialize(20, 15);
    core.paint_cell(5, 5);
    let before_input = core.grid.current_input().clone();
    let before_gen = core.grid.generation;
    core.resize(0, 7);
    assert_eq!(core.grid.width, 20);
    assert_eq!(core.grid.height, 15);
    assert_eq!(core.grid.generation, before_gen);
    assert_eq!(core.grid.current_input(), &before_input);
    core.resize(7, 0);
    assert_eq!(core.grid.width, 20);
    assert_eq!(core.grid.height, 15);
    assert_eq!(core.grid.current_input(), &before_input);
}

#[test]
fn resize_is_a_destructive_reseed() {
    let mut core = SimulationCore::initialize(10, 10);
    core.paint_cell(5, 5);
    run_generations(&mut core, 2);
    core.resize(8, 6);
    assert_eq!(core.grid.width, 8);
    assert_eq!(core.grid.height, 6);
    assert_eq!(core.grid.generation, 0);
    // an 8x6 grid gets no seed pattern: all dead
    assert!(core.grid.current_input().iter().all(|&v| v == 0));
    assert_eq!(core.grid.current_input().len(), 48);
}

#[test]
fn initialize_seeds_larger_grids_deterministically() {
    let a = SimulationCore::initialize(64, 48);
    let b = SimulationCore::initialize(64, 48);
    assert_eq!(a.grid.current_input(), b.grid.current_input());
    assert!(a.grid.current_input().iter().any(|&v| v > 0));
    // the output region starts all dead
    assert!(a.grid.current_output().iter().all(|&v| v == 0));
}

#[test]
fn failed_compile_keeps_the_active_program() {
    let mut core = SimulationCore::initialize(10, 10);
    core.load_rule_program("good program".to_string(), true, String::new())
        .unwrap();
    let err = core
        .load_rule_program("bad program".to_string(), false, "syntax error".to_string())
        .unwrap_err();
    assert_eq!(err.text(), "syntax error");
    assert_eq!(core.engine.program.source, "good program");
}

#[test]
fn successful_compile_swaps_the_program_and_keeps_rules() {
    let mut core = SimulationCore::initialize(10, 10);
    core.set_rule_parameters(GameRules::high_life());
    assert!(core
        .load_rule_program("next program".to_string(), true, String::new())
        .is_ok());
    assert_eq!(core.engine.program.source, "next program");
    assert_eq!(core.engine.rules.birth_count, 6);
}

#[test]
fn write_cell_feeds_the_next_rule_application() {
    let mut core = SimulationCore::initialize(10, 10);
    // a block written into the input region survives the next generation
    for (x, y) in [(2u32, 2u32), (3, 2), (2, 3), (3, 3)] {
        core.grid.write_cell(x, y, 1);
    }
    run_generations(&mut core, 1);
    let mut got = cells_of(core.grid.current_input(), 10);
    got.sort();
    assert_eq!(got, vec![(2, 2), (2, 3), (3, 2), (3, 3)]);
}

#[test]
fn write_cell_out_of_range_is_ignored() {
    let mut core = SimulationCore::initialize(5, 5);
    let before = core.grid.current_input().clone();
    core.grid.write_cell(5, 0, 1);
    core.grid.write_cell(0, 5, 1);
    core.grid.write_cell(700, 700, 1);
    assert_eq!(core.grid.current_input(), &before);
}

#[test]
fn read_live_count_counts_the_completed_generation() {
    let mut core = SimulationCore::initialize(10, 10);
    assert_eq!(core.read_live_count(), 0);
    // a stable block, one generation in: the output region holds it
    for (x, y) in [(2u32, 2u32), (3, 2), (2, 3), (3, 3)] {
        core.grid.write_cell(x, y, 1);
    }
    run_generations(&mut core, 1);
    // output region now holds the pre-step state; input holds the new one
    core.grid.advance_generation();
    assert_eq!(core.read_live_count(), 4);
}

#[test]
fn tick_runs_the_generations_due() {
    let mut core = SimulationCore::initialize(10, 10);
    core.grid.write_cell(4, 3, 1);
    core.grid.write_cell(4, 4, 1);
    core.grid.write_cell(4, 5, 1);
    // at 60 steps/second, two intervals of time run two generations
    let steps = core.tick(2 * 16666 + 10);
    assert_eq!(steps, 2);
    assert_eq!(core.grid.generation, 2);
    let mut got = cells_of(core.grid.current_input(), 10);
    got.sort();
    assert_eq!(got, vec![(4, 3), (4, 4), (4, 5)]);
}

#[test]
fn read_snapshot_copies_the_output_region() {
    let mut core = SimulationCore::initialize(10, 10);
    core.grid.write_cell(1, 1, 4);
    let snap = core.grid.read_snapshot();
    // the edit went to the input region; the snapshot shows the output one
    assert!(snap.iter().all(|&v| v == 0));
    core.grid.advance_generation();
    let snap = core.grid.read_snapshot();
    assert_eq!(snap[(1 * 10 + 1) as usize], 4);
}
