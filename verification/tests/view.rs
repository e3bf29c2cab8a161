use gpu_life::viewport::{ViewState, MAX_ZOOM_MILLI, MIN_ZOOM_MILLI};

#[test]
fn screen_to_world_divides_by_the_zoom() {
    let v = ViewState::new(1000, 1000, 500, 500);
    // at minimum zoom one pixel is one cell
    assert_eq!(v.screen_to_world(123_000, 456_000), (123, 456));
    assert_eq!(v.screen_to_world(123_999, 0), (123, 0));
}

#[test]
fn zoom_by_keeps_the_world_point_under_the_anchor() {
    let mut v = ViewState::new(1000, 1000, 500, 500);
    let anchor = (100_000i64, 100_000i64);
    let before = v.screen_to_world(anchor.0, anchor.1);
    v.zoom_by(true, anchor.0, anchor.1);
    assert_eq!(v.zoom_milli, 1200);
    assert_eq!((v.offset_x_milli, v.offset_y_milli), (20_000, 20_000));
    let after = v.screen_to_world(anchor.0, anchor.1);
    assert_eq!(before, after);
    // and again, one more wheel step in
    v.zoom_by(true, anchor.0, anchor.1);
    assert_eq!(v.zoom_milli, 1440);
    assert_eq!(before, v.screen_to_world(anchor.0, anchor.1));
}

#[test]
fn zoom_is_clamped_to_its_range() {
    let mut v = ViewState::new(1000, 1000, 500, 500);
    // already at minimum: zooming out is a no-op
    v.zoom_by(false, 0, 0);
    assert_eq!(v.zoom_milli, MIN_ZOOM_MILLI);
    v.set_zoom_exact(999_999);
    assert_eq!(v.zoom_milli, MAX_ZOOM_MILLI);
    // at maximum: zooming in is a no-op
    let offsets = (v.offset_x_milli, v.offset_y_milli);
    v.zoom_by(true, 42_000, 17_000);
    assert_eq!(v.zoom_milli, MAX_ZOOM_MILLI);
    assert_eq!((v.offset_x_milli, v.offset_y_milli), offsets);
}

#[test]
fn set_zoom_exact_anchors_at_the_viewport_center() {
    let mut v = ViewState::new(1000, 1000, 500, 500);
    let center = (250_000i64, 250_000i64);
    let before = v.screen_to_world(center.0, center.1);
    v.set_zoom_exact(2000);
    assert_eq!(v.zoom_milli, 2000);
    assert_eq!((v.offset_x_milli, v.offset_y_milli), (250_000, 250_000));
    assert_eq!(before, v.screen_to_world(center.0, center.1));
}

#[test]
fn pan_then_opposite_pan_restores_the_offset() {
    let mut v = ViewState::new(1000, 1000, 500, 500);
    // move to the middle of the pannable range first
    v.pan_by(-300_000, -300_000);
    assert_eq!((v.offset_x_milli, v.offset_y_milli), (300_000, 300_000));
    v.pan_by(100_000, 50_000);
    assert_eq!((v.offset_x_milli, v.offset_y_milli), (200_000, 250_000));
    v.pan_by(-100_000, -50_000);
    assert_eq!((v.offset_x_milli, v.offset_y_milli), (300_000, 300_000));
}

#[test]
fn the_offset_is_clamped_onto_the_grid() {
    let mut v = ViewState::new(1000, 1000, 500, 500);
    // at zoom 1.0 a 1000-cell grid leaves 500_000 milli-pixels of slack
    v.pan_by(-9_000_000, 1_000_000);
    assert_eq!((v.offset_x_milli, v.offset_y_milli), (500_000, 0));
    // a grid smaller than the viewport pins the offset to zero
    let mut small = ViewState::new(100, 100, 500, 500);
    small.pan_by(-9_000_000, -9_000_000);
    assert_eq!((small.offset_x_milli, small.offset_y_milli), (0, 0));
}

#[test]
fn zooming_out_reclamps_the_offset() {
    let mut v = ViewState::new(1000, 1000, 500, 500);
    v.set_zoom_exact(2000);
    v.pan_by(-9_000_000, -9_000_000);
    // slack at zoom 2.0 is 1000*2000 - 500_000 = 1_500_000
    assert_eq!((v.offset_x_milli, v.offset_y_milli), (1_500_000, 1_500_000));
    v.zoom_by_free(false);
    // zoom drops to 1.666, slack shrinks to 1000*1666 - 500_000
    assert_eq!(v.zoom_milli, 1666);
    assert_eq!((v.offset_x_milli, v.offset_y_milli), (1_166_000, 1_166_000));
}

#[test]
fn resize_resets_the_view_and_rejects_zero() {
    let mut v = ViewState::new(1000, 1000, 500, 500);
    v.set_zoom_exact(4000);
    v.pan_by(-100_000, -200_000);
    let before = v;
    v.handle_resize(0, 800, 400, 400);
    assert_eq!(v, before);
    v.handle_resize(800, 0, 400, 400);
    assert_eq!(v, before);
    v.handle_resize(800, 600, 400, 400);
    assert_eq!(v.zoom_milli, MIN_ZOOM_MILLI);
    assert_eq!((v.offset_x_milli, v.offset_y_milli), (0, 0));
    assert_eq!((v.grid_width, v.grid_height), (800, 600));
    assert_eq!((v.viewport_width, v.viewport_height), (400, 400));
}

#[test]
fn current_view_reports_zoom_and_offset() {
    let mut v = ViewState::new(1000, 1000, 500, 500);
    v.pan_by(-5_000, -6_000);
    assert_eq!(v.current_view(), (1000, 5_000, 6_000));
}
