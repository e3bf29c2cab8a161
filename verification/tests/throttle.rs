use gpu_life::interact::{
    delay_micros_for_speed, drag_speed, int_sqrt, CellColor, CursorMode, InteractionThrottle,
};

#[test]
fn delay_is_pinned_at_slow_speeds() {
    // at or below 10 pixels/second: 5 actions per second
    assert_eq!(delay_micros_for_speed(0), 200_000);
    assert_eq!(delay_micros_for_speed(5), 200_000);
    assert_eq!(delay_micros_for_speed(10), 200_000);
}

#[test]
fn delay_is_pinned_at_fast_speeds() {
    // at or above 500 pixels/second: 1000 actions per second
    assert_eq!(delay_micros_for_speed(500), 1_000);
    assert_eq!(delay_micros_for_speed(10_000), 1_000);
}

#[test]
fn delay_interpolates_linearly_in_between() {
    // the midpoint of the speed range maps to the midpoint of the delays
    assert_eq!(delay_micros_for_speed(255), 100_500);
    assert_eq!(delay_micros_for_speed(11), 200_000 - 199_000 / 490);
    assert_eq!(delay_micros_for_speed(499), 200_000 - 489 * 199_000 / 490);
}

#[test]
fn int_sqrt_rounds_down() {
    assert_eq!(int_sqrt(0), 0);
    assert_eq!(int_sqrt(1), 1);
    assert_eq!(int_sqrt(3), 1);
    assert_eq!(int_sqrt(4), 2);
    assert_eq!(int_sqrt(17_000_000), 4123);
    assert_eq!(int_sqrt(u64::MAX), 0xffff_ffff);
}

#[test]
fn drag_speed_is_distance_over_time() {
    // 3000 milli-pixels in 10_000 microseconds: 300 pixels per second
    assert_eq!(drag_speed(3_000, 0, 10_000), 300);
    assert_eq!(drag_speed(0, -3_000, 10_000), 300);
    // a 3-4-5 triangle
    assert_eq!(drag_speed(3_000, 4_000, 10_000), 500);
    // no elapsed time means no measurable speed
    assert_eq!(drag_speed(9_000, 9_000, 0), 0);
}

#[test]
fn a_click_always_fires_once() {
    let mut t = InteractionThrottle::new();
    assert!(t.on_press(0, 0, 1_000));
    assert!(!t.is_dragging);
    assert_eq!(t.drag_start, Some((0, 0)));
    // the press does not touch any per-tool timer
    assert_eq!(t.get_last_trigger(CursorMode::Paint), None);
}

#[test]
fn movement_below_the_threshold_is_not_a_drag() {
    let mut t = InteractionThrottle::new();
    t.on_press(0, 0, 0);
    // 1x1 pixels moved: squared distance 2_000_000 is under the 3-pixel threshold
    let fired = t.on_move(1_000, 1_000, 1_000, CursorMode::Paint);
    assert!(!fired);
    assert!(!t.is_dragging);
}

#[test]
fn movement_past_the_threshold_starts_a_drag_and_fires() {
    let mut t = InteractionThrottle::new();
    t.on_press(0, 0, 0);
    t.on_move(1_000, 1_000, 1_000, CursorMode::Paint);
    // 5 pixels from the press: dragging begins; the tool never fired, so it fires
    let fired = t.on_move(5_000, 0, 2_000, CursorMode::Paint);
    assert!(fired);
    assert!(t.is_dragging);
    assert_eq!(t.get_last_trigger(CursorMode::Paint), Some(2_000));
}

#[test]
fn a_slow_drag_is_rate_limited() {
    let mut t = InteractionThrottle::new();
    t.on_press(0, 0, 0);
    t.on_move(1_000, 1_000, 1_000, CursorMode::Paint);
    assert!(t.on_move(5_000, 0, 2_000, CursorMode::Paint));
    // shortly after: the speed is slow, so the delay is long and nothing fires
    assert!(!t.on_move(5_100, 0, 30_000, CursorMode::Paint));
    assert_eq!(t.get_last_trigger(CursorMode::Paint), Some(2_000));
    // after the full slow-speed delay the tool fires again
    assert!(t.on_move(5_200, 0, 250_000, CursorMode::Paint));
    assert_eq!(t.get_last_trigger(CursorMode::Paint), Some(250_000));
}

#[test]
fn a_fast_drag_fires_often() {
    let mut t = InteractionThrottle::new();
    t.on_press(0, 0, 0);
    t.on_move(1_000, 1_000, 1_000, CursorMode::Paint);
    assert!(t.on_move(5_000, 0, 2_000, CursorMode::Paint));
    // 10 pixels in 2 milliseconds is 5000 pixels/second: delay is 1 millisecond
    assert!(t.on_move(15_000, 0, 4_000, CursorMode::Paint));
    assert_eq!(t.get_last_trigger(CursorMode::Paint), Some(4_000));
}

#[test]
fn each_tool_keeps_its_own_timer() {
    let mut t = InteractionThrottle::new();
    t.on_press(0, 0, 0);
    t.on_move(9_000, 9_000, 1_000, CursorMode::Paint);
    assert!(t.is_dragging);
    assert_eq!(t.get_last_trigger(CursorMode::Paint), Some(1_000));
    // switching tools mid-drag: the other tool's timer is fresh, so it fires,
    // and the paint timer is untouched
    assert!(t.on_move(9_100, 9_000, 1_500, CursorMode::ClearArea));
    assert_eq!(t.get_last_trigger(CursorMode::ClearArea), Some(1_500));
    assert_eq!(t.get_last_trigger(CursorMode::Paint), Some(1_000));
    // back to paint: its own long delay still gates it
    assert!(!t.on_move(9_200, 9_000, 2_000, CursorMode::Paint));
    assert_eq!(t.get_last_trigger(CursorMode::Paint), Some(1_000));
}

#[test]
fn release_ends_the_drag_and_keeps_the_timers() {
    let mut t = InteractionThrottle::new();
    t.on_press(0, 0, 0);
    t.on_move(9_000, 9_000, 1_000, CursorMode::Paint);
    t.on_release();
    assert!(!t.is_dragging);
    assert_eq!(t.drag_start, None);
    assert_eq!(t.last_action_micros, None);
    assert_eq!(t.get_last_trigger(CursorMode::Paint), Some(1_000));
}

#[test]
fn leaving_the_window_forgets_the_previous_sample() {
    let mut t = InteractionThrottle::new();
    t.on_press(0, 0, 0);
    t.on_pointer_leave();
    assert_eq!(t.last_pointer, None);
    assert_eq!(t.drag_start, Some((0, 0)));
}

#[test]
fn a_drag_with_no_previous_sample_waits_for_one() {
    let mut t = InteractionThrottle::new();
    t.on_press(0, 0, 0);
    t.on_move(9_000, 9_000, 1_000, CursorMode::Paint);
    assert!(t.is_dragging);
    // the pointer leaves and re-enters: the first sample only re-anchors
    t.on_pointer_leave();
    assert!(!t.on_move(9_100, 9_000, 400_000, CursorMode::PlaceGlider));
    assert_eq!(t.get_last_trigger(CursorMode::PlaceGlider), None);
    // with a sample present again, the tool can fire
    assert!(t.on_move(9_200, 9_000, 401_000, CursorMode::PlaceGlider));
}

#[test]
fn cell_colors_encode_their_category() {
    assert_eq!(CellColor::White.to_value(), 1);
    assert_eq!(CellColor::Red.to_value(), 3);
    assert_eq!(CellColor::Green.to_value(), 4);
    assert_eq!(CellColor::Blue.to_value(), 5);
    assert_eq!(CellColor::Yellow.to_value(), 6);
    assert_eq!(CellColor::Purple.to_value(), 7);
    assert_eq!(CellColor::default(), CellColor::White);
    assert_eq!(CursorMode::default(), CursorMode::Paint);
}
