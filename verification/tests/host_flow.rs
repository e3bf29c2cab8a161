use gpu_life::fps::FpsCounter;
use gpu_life::interact::{CursorMode, PanGesture};
use gpu_life::sim::SimulationCore;
use gpu_life::stamps::{CLEAR_AREA_RADIUS, RANDOM_FILL_RADIUS};

#[test]
fn perform_action_dispatches_to_each_tool() {
    let mut core = SimulationCore::initialize(10, 10);
    core.set_brush_radius(0);
    core.perform_action(CursorMode::Paint, 2, 2);
    assert_eq!(core.grid.current_input()[(2 * 10 + 2) as usize], 1);
    core.perform_action(CursorMode::ClearArea, 2, 2);
    assert_eq!(core.grid.current_input()[(2 * 10 + 2) as usize], 0);

    let mut core = SimulationCore::initialize(10, 10);
    core.perform_action(CursorMode::PlaceGlider, 2, 2);
    assert_eq!(
        core.grid.current_input().iter().filter(|&&v| v > 0).count(),
        5
    );

    // the same glider placed directly gives the same region
    let mut direct = SimulationCore::initialize(10, 10);
    direct.place_glider(2, 2);
    assert_eq!(core.grid.current_input(), direct.grid.current_input());

    // random fill through the dispatcher is seeded by the generation counter
    let mut a = SimulationCore::initialize(10, 10);
    let mut b = SimulationCore::initialize(10, 10);
    a.perform_action(CursorMode::RandomFill, 5, 5);
    b.random_fill(5, 5, RANDOM_FILL_RADIUS, 400, 0);
    assert_eq!(a.grid.current_input(), b.grid.current_input());

    assert_eq!(CLEAR_AREA_RADIUS, 15);
    assert_eq!(RANDOM_FILL_RADIUS, 20);
}

#[test]
fn fps_counter_averages_the_window() {
    let mut fps = FpsCounter::new();
    assert_eq!(fps.fps_milli, 0);
    // four frames of 20 milliseconds each: 50 frames per second
    for _ in 0..4 {
        fps.record_frame(20_000);
    }
    assert_eq!(fps.fps_milli, 50_000);
    // a slower frame pulls the average down: 5 frames over 180_000us
    fps.record_frame(100_000);
    assert_eq!(fps.fps_milli, 5 * 1_000_000_000 / 180_000);
}

#[test]
fn fps_counter_window_is_circular() {
    let mut fps = FpsCounter::new();
    // fill the whole window with 10ms frames, then overwrite with 5ms ones
    for _ in 0..60 {
        fps.record_frame(10_000);
    }
    assert_eq!(fps.fps_milli, 100_000);
    for _ in 0..60 {
        fps.record_frame(5_000);
    }
    assert_eq!(fps.fps_milli, 200_000);
    assert_eq!(fps.frame_time_index, 0);
}

#[test]
fn fps_counter_ignores_empty_slots() {
    let mut fps = FpsCounter::new();
    fps.record_frame(0); // a zero sample records nothing
    assert_eq!(fps.fps_milli, 0);
    fps.record_frame(25_000);
    // one 25ms frame among empty slots averages to 40 fps
    assert_eq!(fps.fps_milli, 40_000);
}

#[test]
fn a_short_right_press_is_a_click_that_opens_the_menu() {
    let mut g = PanGesture::new();
    g.on_press(10_000, 10_000);
    // a wiggle below the threshold is still a click
    assert_eq!(g.on_move(11_000, 10_000), None);
    assert!(!g.drag_started);
    assert!(g.on_release(true));
    assert!(!g.pressed);
}

#[test]
fn a_right_drag_pans_and_suppresses_the_menu() {
    let mut g = PanGesture::new();
    g.on_press(10_000, 10_000);
    assert_eq!(g.on_move(10_500, 10_000), None);
    // past 3 pixels of movement the drag starts and pans from the last sample
    assert_eq!(g.on_move(20_000, 16_000), Some((9_500, 6_000)));
    assert!(g.drag_started);
    assert_eq!(g.on_move(21_000, 15_000), Some((1_000, -1_000)));
    assert!(!g.on_release(true));
}

#[test]
fn releasing_without_a_known_cursor_opens_no_menu() {
    let mut g = PanGesture::new();
    g.on_press(0, 0);
    assert!(!g.on_release(false));
}

#[test]
fn moving_with_the_button_up_forgets_the_sample() {
    let mut g = PanGesture::new();
    assert_eq!(g.on_move(5_000, 5_000), None);
    assert_eq!(g.last_pointer, None);
}
