use mac_window::drag_bounds::preview_leaves_viewport;
use mac_window::geometry::{
    bounds_on_screen, content_frame, convert_mouse_position, convert_size, fills_screen,
    first_rect_for_character_range, get_scale_factor, opening_rect, position_on_screen,
    released_outside, saturate, screen_point_to_gpui_point, sizes_agree, Point, Rect, Size, POINT,
};

fn px(value: f64) -> i64 {
    (value * 4_294_967_296.0) as i64
}

fn point(x: f64, y: f64) -> Point {
    Point { x: px(x), y: px(y) }
}

fn size(width: f64, height: f64) -> Size {
    Size {
        width: px(width),
        height: px(height),
    }
}

fn rect(x: f64, y: f64, width: f64, height: f64) -> Rect {
    Rect {
        origin: point(x, y),
        size: size(width, height),
    }
}

const DEFAULT: Size = Size {
    width: 1536 * POINT,
    height: 1095 * POINT,
};

#[test]
fn mouse_positions_are_flipped() {
    let position = convert_mouse_position(point(10.5, 20.25), px(600.0));
    assert_eq!(position, point(10.5, 579.75));
    assert_eq!(convert_mouse_position(position, px(600.0)), point(10.5, 20.25));
}

#[test]
fn window_bounds_count_from_the_top_left_of_the_screen() {
    let screen = rect(1440.0, -200.0, 1920.0, 1080.0);
    let window = rect(1540.0, 300.0, 800.0, 600.0);
    assert_eq!(
        bounds_on_screen(window, Some(screen), DEFAULT),
        rect(100.0, -20.0, 800.0, 600.0)
    );
    assert_eq!(
        bounds_on_screen(window, None, DEFAULT),
        Rect {
            origin: point(0.0, 0.0),
            size: DEFAULT
        }
    );
}

#[test]
fn opened_window_gets_its_bounds() {
    let screen = rect(1440.0, 100.0, 1920.0, 1080.0);
    let bounds = rect(30.0, 40.0, 800.0, 600.0);
    let opened = opening_rect(bounds, screen, screen.size.height);
    assert_eq!(opened, rect(1470.0, 1140.0, 800.0, 600.0));
    let frame = rect(1470.0, 1140.0 - 600.0, 800.0, 600.0);
    assert_eq!(bounds_on_screen(frame, Some(screen), DEFAULT), bounds);
}

#[test]
fn content_frame_leaves_out_the_titlebar() {
    let frame = rect(10.0, 50.0, 800.0, 628.0);
    assert_eq!(content_frame(frame, px(600.0), true), frame);
    assert_eq!(
        content_frame(frame, px(600.0), false),
        rect(10.0, 22.0, 800.0, 628.0)
    );
}

#[test]
fn characters_are_found_where_they_are_reported() {
    let frame = rect(100.0, 200.0, 800.0, 600.0);
    let bounds = rect(10.0, 20.0, 7.5, 16.0);
    let on_screen = first_rect_for_character_range(frame, Some(bounds));
    assert_eq!(on_screen, rect(110.0, 764.0, 7.5, 16.0));
    assert_eq!(
        screen_point_to_gpui_point(frame, point(110.0, 780.0)),
        bounds.origin
    );
    assert_eq!(
        first_rect_for_character_range(frame, None),
        rect(0.0, 0.0, 0.0, 0.0)
    );
}

#[test]
fn drags_end_outside_beyond_the_edges() {
    let frame = rect(100.0, 200.0, 800.0, 600.0);
    assert!(!released_outside(frame, point(100.0, 200.0)));
    assert!(!released_outside(frame, point(900.0, 800.0)));
    assert!(released_outside(frame, point(99.5, 300.0)));
    assert!(released_outside(frame, point(900.5, 300.0)));
    assert!(released_outside(frame, point(500.0, 199.5)));
    assert!(released_outside(frame, point(500.0, 800.5)));
}

#[test]
fn screen_positions_count_from_the_top() {
    let screen = rect(1440.0, 100.0, 1920.0, 1080.0);
    assert_eq!(
        position_on_screen(point(1500.0, 180.0), Some(screen)),
        point(60.0, 1000.0)
    );
    assert_eq!(
        position_on_screen(point(15.0, 18.0), None),
        point(15.0, -18.0)
    );
}

#[test]
fn missing_and_zero_scale_factors_count_as_two() {
    assert_eq!(get_scale_factor(None), px(2.0));
    assert_eq!(get_scale_factor(Some(0)), px(2.0));
    assert_eq!(get_scale_factor(Some(px(1.0))), px(1.0));
    assert_eq!(get_scale_factor(Some(px(1.5))), px(1.5));
}

#[test]
fn maximized_window_fills_the_visible_screen() {
    assert!(fills_screen(size(1920.0, 1055.0), Some(size(1920.0, 1055.0))));
    assert!(!fills_screen(size(1920.0, 1000.0), Some(size(1920.0, 1055.0))));
    assert!(!fills_screen(size(1920.0, 1055.0), None));
}

#[test]
fn results_saturate() {
    assert_eq!(saturate(i64::MAX as i128 + 1), i64::MAX);
    assert_eq!(saturate(i64::MIN as i128 - 1), i64::MIN);
    assert_eq!(saturate(-5), -5);
    let far = Point {
        x: 0,
        y: i64::MIN,
    };
    assert_eq!(convert_mouse_position(far, i64::MAX).y, i64::MAX);
}

#[test]
fn release_outside_is_a_pointer_that_left() {
    let frame = rect(100.0, 200.0, 800.0, 600.0);
    for (x, y) in [(100.0, 200.0), (99.0, 200.0), (901.0, 500.0), (500.0, 801.0)] {
        let local = screen_point_to_gpui_point(frame, point(x, y));
        assert_eq!(
            released_outside(frame, point(x, y)),
            preview_leaves_viewport(
                [local.x, local.y],
                [0, 0],
                None,
                [frame.size.width, frame.size.height]
            )
        );
    }
}

#[test]
fn coordinates_are_rounded_as_they_are_computed() {
    let float = |value: i64| value as f64 / POINT as f64;
    let (x, y, height) = (10.3, 700.9, 834.7f32);
    let position = convert_mouse_position(point(x, y), px(height as f64));
    assert_eq!(float(position.x), float(px(x)) as f32 as f64);
    assert_eq!(float(position.y), (height - float(px(y)) as f32) as f64);
    let screen = rect(1440.1, -200.7, 1920.0, 1080.3);
    let window = rect(1540.9, 300.2, 800.6, 600.4);
    let bounds = bounds_on_screen(window, Some(screen), DEFAULT);
    let (w, s) = (window, screen);
    let left = float(w.origin.x) - float(s.origin.x);
    let top = float(s.size.height) - float(w.origin.y) - float(w.size.height) + float(s.origin.y);
    assert_eq!(float(bounds.origin.x), left as f32 as f64);
    assert_eq!(float(bounds.origin.y), top as f32 as f64);
    assert_eq!(float(bounds.size.width), float(w.size.width) as f32 as f64);
    assert_eq!(float(bounds.size.height), float(w.size.height) as f32 as f64);
    let opened = opening_rect(bounds, screen, px(1080.25));
    let down = 1080.25f32 - float(bounds.origin.y) as f32;
    assert_eq!(float(opened.origin.y), float(s.origin.y) + down as f64);
    let local = screen_point_to_gpui_point(window, point(1600.7, 333.3));
    let right = float(px(1600.7)) - float(w.origin.x);
    let below = float(w.size.height) - (float(px(333.3)) - float(w.origin.y));
    assert_eq!(float(local.x), right as f32 as f64);
    assert_eq!(float(local.y), below as f32 as f64);
    let shown = position_on_screen(point(1600.7, 333.3), Some(screen));
    let below = float(s.origin.y) + float(s.size.height) - float(px(333.3));
    assert_eq!(float(shown.y), below as f32 as f64);
    assert_eq!(float(get_scale_factor(Some(px(1.1)))), float(px(1.1)) as f32 as f64);
}

#[test]
fn sizes_are_compared_in_single_precision() {
    let nearly = Size {
        width: px(800.0) + 100,
        height: px(600.0),
    };
    assert!(sizes_agree(nearly, size(800.0, 600.0)));
    assert!(fills_screen(nearly, Some(size(800.0, 600.0))));
    assert!(!sizes_agree(nearly, size(800.001, 600.0)));
    assert_eq!(convert_size(nearly), size(800.0, 600.0));
}
