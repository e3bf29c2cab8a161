use gpu_life::interact::CellColor;
use gpu_life::sim::SimulationCore;

fn wipe(core: &mut SimulationCore) {
    // larger grids start with the deterministic seed; clear it for a blank slate
    let w = core.grid.width as i64;
    let h = core.grid.height as i64;
    core.clear_area(w / 2, h / 2, 10_000);
}

fn live_cells(core: &SimulationCore) -> Vec<(i64, i64)> {
    let w = core.grid.width as i64;
    let mut out = Vec::new();
    for (i, &v) in core.grid.current_input().iter().enumerate() {
        if v > 0 {
            out.push(((i as i64) % w, (i as i64) / w));
        }
    }
    out
}

#[test]
fn paint_fills_a_square_brush() {
    let mut core = SimulationCore::initialize(10, 10);
    core.set_brush_radius(1);
    core.paint_cell(4, 4);
    let mut got = live_cells(&core);
    got.sort();
    let mut expected = Vec::new();
    for y in 3..=5 {
        for x in 3..=5 {
            expected.push((x, y));
        }
    }
    expected.sort();
    assert_eq!(got, expected);
}

#[test]
fn paint_at_the_corner_clips_to_the_grid() {
    let mut core = SimulationCore::initialize(10, 10);
    core.set_brush_radius(2);
    core.paint_cell(0, 0);
    let mut got = live_cells(&core);
    got.sort();
    let mut expected = Vec::new();
    for y in 0..=2 {
        for x in 0..=2 {
            expected.push((x, y));
        }
    }
    expected.sort();
    assert_eq!(got, expected);
}

#[test]
fn paint_outside_the_grid_is_ignored() {
    let mut core = SimulationCore::initialize(10, 10);
    core.paint_cell(-1, 4);
    core.paint_cell(4, 10);
    assert_eq!(live_cells(&core), Vec::<(i64, i64)>::new());
}

#[test]
fn paint_uses_the_selected_color() {
    let mut core = SimulationCore::initialize(10, 10);
    core.set_brush_radius(0);
    core.set_paint_color(CellColor::Purple);
    core.paint_cell(2, 7);
    assert_eq!(core.grid.current_input()[(7 * 10 + 2) as usize], 7);
}

#[test]
fn clear_area_zeroes_a_disc() {
    let mut core = SimulationCore::initialize(10, 10);
    core.set_brush_radius(4);
    core.paint_cell(5, 5);
    core.clear_area(5, 5, 1);
    let survivors = live_cells(&core);
    // the disc of radius 1 around (5,5) is gone: center plus 4 orthogonal cells
    assert!(!survivors.contains(&(5, 5)));
    assert!(!survivors.contains(&(4, 5)));
    assert!(!survivors.contains(&(6, 5)));
    assert!(!survivors.contains(&(5, 4)));
    assert!(!survivors.contains(&(5, 6)));
    // diagonal neighbors are outside the disc (squared distance 2 > 1)
    assert!(survivors.contains(&(4, 4)));
    assert!(survivors.contains(&(6, 6)));
}

#[test]
fn random_fill_is_deterministic_in_its_seed() {
    let mut a = SimulationCore::initialize(20, 20);
    let mut b = SimulationCore::initialize(20, 20);
    wipe(&mut a);
    wipe(&mut b);
    a.random_fill(10, 10, 5, 400, 42);
    b.random_fill(10, 10, 5, 400, 42);
    assert_eq!(a.grid.current_input(), b.grid.current_input());
    assert!(a.grid.current_input().iter().any(|&v| v > 0));
    // a different seed gives a different pattern
    let mut c = SimulationCore::initialize(20, 20);
    wipe(&mut c);
    c.random_fill(10, 10, 5, 400, 43);
    assert_ne!(a.grid.current_input(), c.grid.current_input());
}

#[test]
fn random_fill_densities_pin_the_extremes() {
    let mut none = SimulationCore::initialize(20, 20);
    wipe(&mut none);
    none.random_fill(10, 10, 5, 0, 7);
    assert!(none.grid.current_input().iter().all(|&v| v == 0));
    let mut all = SimulationCore::initialize(20, 20);
    wipe(&mut all);
    all.random_fill(10, 10, 2, 1000, 7);
    // the whole disc of radius 2 is painted
    for (dx, dy) in [(0i64, 0i64), (1, 0), (-1, 0), (0, 1), (0, -2), (2, 0), (1, 1)] {
        let (x, y) = (10 + dx, 10 + dy);
        assert!(all.grid.current_input()[(y * 20 + x) as usize] > 0);
    }
    // outside the disc nothing is painted
    assert_eq!(all.grid.current_input()[(12 * 20 + 12) as usize], 0);
}

#[test]
fn random_fill_matches_the_documented_hash() {
    let mut core = SimulationCore::initialize(20, 20);
    wipe(&mut core);
    let (seed, density) = (42u32, 400u32);
    core.random_fill(10, 10, 3, density, seed);
    for y in 0..20i64 {
        for x in 0..20i64 {
            let dx = x - 10;
            let dy = y - 10;
            let in_disc = dx * dx + dy * dy <= 9;
            let h = ((x as u32).wrapping_mul(17))
                .wrapping_add((y as u32).wrapping_mul(31))
                .wrapping_add(seed.wrapping_mul(43));
            let hit = in_disc && (h % 1000) < density;
            let v = core.grid.current_input()[(y * 20 + x) as usize];
            assert_eq!(v > 0, hit, "cell ({x}, {y})");
        }
    }
}

#[test]
fn stamps_place_their_patterns() {
    let mut core = SimulationCore::initialize(10, 10);
    core.place_glider(2, 2);
    let mut got = live_cells(&core);
    got.sort();
    assert_eq!(got, vec![(2, 3), (3, 4), (4, 2), (4, 3), (4, 4)]);

    let mut core = SimulationCore::initialize(10, 10);
    core.place_lwss(2, 2);
    assert_eq!(live_cells(&core).len(), 9);

    let mut core = SimulationCore::initialize(20, 20);
    wipe(&mut core);
    core.place_pulsar(2, 2);
    assert_eq!(live_cells(&core).len(), 48);

    let mut core = SimulationCore::initialize(40, 12);
    wipe(&mut core);
    core.place_gosper_glider_gun(1, 1);
    assert_eq!(live_cells(&core).len(), 36);

    let mut core = SimulationCore::initialize(15, 15);
    wipe(&mut core);
    core.place_pentadecathlon(2, 5);
    assert_eq!(live_cells(&core).len(), 12);

    let mut core = SimulationCore::initialize(32, 16);
    wipe(&mut core);
    core.place_simkin_glider_gun(1, 1);
    assert_eq!(live_cells(&core).len(), 43);
}

#[test]
fn stamps_outside_the_grid_are_ignored_and_edges_clip() {
    let mut core = SimulationCore::initialize(10, 10);
    core.place_glider(10, 5);
    core.place_pulsar(-1, 0);
    assert_eq!(live_cells(&core), Vec::<(i64, i64)>::new());
    // anchored on the grid, cells past the edge are clipped
    core.place_glider(9, 9);
    let mut got = live_cells(&core);
    got.sort();
    // only the glider cells that remain on the grid appear
    assert_eq!(got, Vec::<(i64, i64)>::new());
    core.place_glider(7, 7);
    assert_eq!(live_cells(&core).len(), 5);
}

#[test]
fn stamps_use_the_current_paint_color() {
    let mut core = SimulationCore::initialize(10, 10);
    core.set_paint_color(CellColor::Red);
    core.place_glider(2, 2);
    assert_eq!(core.grid.current_input()[(3 * 10 + 2) as usize], 3);
}

#[test]
fn pentadecathlon_oscillates_with_period_fifteen() {
    let mut core = SimulationCore::initialize(20, 20);
    wipe(&mut core);
    core.place_pentadecathlon(4, 9);
    let start = core.grid.current_input().clone();
    for _ in 0..15 {
        let paint = core.paint_value;
        core.engine.apply(&mut core.grid, paint);
    }
    assert_eq!(core.grid.current_input(), &start);
}
