use gpu_life::engine::{dispatch_counts, RuleEngine, ShaderGameRules, SimParams, WORKGROUP_SIZE};
use gpu_life::patterns::{initialize_grid_with_pattern, place_pattern_on_grid, Pattern};
use gpu_life::rules::{apply_rules, count_neighbors, get_index, GameRules};

#[test]
fn preset_rules_have_the_documented_thresholds() {
    let conway = GameRules::conway();
    assert_eq!(
        (conway.survival_min, conway.survival_max, conway.birth_count),
        (2, 3, 3)
    );
    let hl = GameRules::high_life();
    assert_eq!((hl.survival_min, hl.survival_max, hl.birth_count), (2, 3, 6));
    let dn = GameRules::day_and_night();
    assert_eq!((dn.survival_min, dn.survival_max, dn.birth_count), (3, 8, 3));
    assert_eq!(GameRules::default(), GameRules::conway());
    let custom = GameRules::new(1, 5, 4);
    assert_eq!(
        (custom.survival_min, custom.survival_max, custom.birth_count),
        (1, 5, 4)
    );
}

#[test]
fn get_index_is_row_major() {
    assert_eq!(get_index(0, 0, 10), 0);
    assert_eq!(get_index(3, 2, 10), 23);
    assert_eq!(get_index(9, 9, 10), 99);
}

#[test]
fn neighbor_counting_wraps_at_the_edges() {
    // one live cell in the top-left corner of a 5x5 grid
    let mut grid = vec![0u32; 25];
    grid[0] = 1;
    // its diagonal toroidal neighbor is the bottom-right corner
    assert_eq!(count_neighbors(&grid, 4, 4, 5, 5), 1);
    assert_eq!(count_neighbors(&grid, 1, 1, 5, 5), 1);
    assert_eq!(count_neighbors(&grid, 2, 2, 5, 5), 0);
    // the cell itself is not counted
    assert_eq!(count_neighbors(&grid, 0, 0, 5, 5), 0);
}

#[test]
fn on_a_single_cell_grid_a_cell_is_its_own_eight_neighbors() {
    let grid = vec![1u32];
    assert_eq!(count_neighbors(&grid, 0, 0, 1, 1), 8);
    // overpopulated under the classic rules: it dies
    let mut output = vec![7u32];
    apply_rules(&grid, &mut output, 1, 1, &GameRules::conway(), 1);
    assert_eq!(output, vec![0]);
}

#[test]
fn apply_rules_matches_the_threshold_model() {
    // a horizontal blinker becomes a vertical one
    let mut input = vec![0u32; 25];
    for x in [1usize, 2, 3] {
        input[2 * 5 + x] = 1;
    }
    let mut output = vec![0u32; 25];
    apply_rules(&input, &mut output, 5, 5, &GameRules::conway(), 1);
    let live: Vec<usize> = (0..25).filter(|&i| output[i] > 0).collect();
    assert_eq!(live, vec![1 * 5 + 2, 2 * 5 + 2, 3 * 5 + 2]);
}

#[test]
fn apply_rules_paints_births_and_preserves_survivor_values() {
    let mut input = vec![0u32; 25];
    input[2 * 5 + 1] = 3;
    input[2 * 5 + 2] = 4;
    input[2 * 5 + 3] = 6;
    let mut output = vec![0u32; 25];
    apply_rules(&input, &mut output, 5, 5, &GameRules::conway(), 7);
    assert_eq!(output[2 * 5 + 2], 4); // survivor keeps its color category
    assert_eq!(output[1 * 5 + 2], 7); // births take the paint value
    assert_eq!(output[3 * 5 + 2], 7);
    assert_eq!(output[2 * 5 + 1], 0); // the tips die
    assert_eq!(output[2 * 5 + 3], 0);
}

#[test]
fn pattern_cells_lists_the_documented_shapes() {
    assert_eq!(Pattern::Blinker.cells(4, 4), vec![(4, 3), (4, 4), (4, 5)]);
    assert_eq!(
        Pattern::Glider.cells(1, 1),
        vec![(1, 2), (2, 3), (3, 1), (3, 2), (3, 3)]
    );
    assert_eq!(
        Pattern::Block.cells(0, 0),
        vec![(0, 0), (1, 0), (0, 1), (1, 1)]
    );
    assert_eq!(Pattern::Toad.cells(3, 3).len(), 6);
    assert_eq!(Pattern::LightweightSpaceship.cells(0, 0).len(), 9);
    assert_eq!(Pattern::GosperGliderGun.cells(0, 0).len(), 36);
}

#[test]
fn placing_a_pattern_skips_cells_off_the_grid() {
    let mut grid = vec![0u32; 25];
    // a glider anchored in the bottom-right corner: most cells fall off
    place_pattern_on_grid(&mut grid, 5, 5, &Pattern::Glider, 4, 4);
    let live: Vec<usize> = (0..25).filter(|&i| grid[i] > 0).collect();
    // only (4, 4+1=off) ... the one surviving in-range glider cell is none:
    // cells are (4,5),(5,6),(6,4),(6,5),(6,6): all off a 5x5 grid
    assert_eq!(live, Vec::<usize>::new());
    place_pattern_on_grid(&mut grid, 5, 5, &Pattern::Block, 3, 3);
    let live: Vec<usize> = (0..25).filter(|&i| grid[i] > 0).collect();
    assert_eq!(live, vec![3 * 5 + 3, 3 * 5 + 4, 4 * 5 + 3, 4 * 5 + 4]);
}

#[test]
fn initialize_grid_with_pattern_centers_it() {
    let grid = initialize_grid_with_pattern(9, 9, &Pattern::Blinker);
    let live: Vec<usize> = (0..81).filter(|&i| grid[i] > 0).collect();
    assert_eq!(live, vec![3 * 9 + 4, 4 * 9 + 4, 5 * 9 + 4]);
}

#[test]
fn dispatch_counts_round_up_to_whole_tiles() {
    assert_eq!(dispatch_counts(64, 64, WORKGROUP_SIZE), (8, 8));
    assert_eq!(dispatch_counts(65, 63, WORKGROUP_SIZE), (9, 8));
    assert_eq!(dispatch_counts(1, 1, WORKGROUP_SIZE), (1, 1));
}

#[test]
fn shader_rules_mirror_the_rule_set_with_padding() {
    let shader = ShaderGameRules::from(GameRules::high_life());
    assert_eq!(shader.survival_min, 2);
    assert_eq!(shader.survival_max, 3);
    assert_eq!(shader.birth_count, 6);
    assert_eq!(shader._padding, 0);
    let params = SimParams { width: 640, height: 480 };
    assert_eq!((params.width, params.height), (640, 480));
}

#[test]
fn engine_swap_is_atomic() {
    let mut engine = RuleEngine::new("first".to_string(), GameRules::conway());
    let err = engine
        .load_program("second".to_string(), false, "no device".to_string())
        .unwrap_err();
    assert_eq!(err.text(), "no device");
    assert_eq!(engine.program.source, "first");
    assert!(engine
        .load_program("second".to_string(), true, String::new())
        .is_ok());
    assert_eq!(engine.program.source, "second");
}
