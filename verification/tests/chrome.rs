use mac_window::fullscreen::{
    apply_simple_fullscreen_plan, is_fullscreen, pop_simple_fullscreen_presentation_options,
    push_simple_fullscreen_presentation_options, FullscreenState, SimpleFullscreenAction,
    SimpleFullscreenPlan, WindowBounds, WindowGeometry,
};
use mac_window::geometry::{Point, Rect, Size, POINT};
use mac_window::style::{STYLE_FULL_SCREEN, STYLE_RESIZABLE, STYLE_TITLED};
use mac_window::titlebar::TitlebarAction::{Minimize, Nothing, Zoom};
use mac_window::titlebar::WindowBackgroundAppearance::{Blurred, Opaque, Transparent};
use mac_window::titlebar::{
    collapsed_tab_bar, double_click_action, follow_up_double_click, opaque_fullscreen_titlebar_since,
    opaque_rect_for_window_move, plan_background, BlurPlan, SystemVersion,
};
use mac_window::traffic_light::{TrafficLight, TrafficLightFrames, TrafficLightPlan};

fn rect(x: i64, y: i64, width: i64, height: i64) -> Rect {
    Rect {
        origin: Point {
            x: x * POINT,
            y: y * POINT,
        },
        size: Size {
            width: width * POINT,
            height: height * POINT,
        },
    }
}

fn at(x: i64, y: i64) -> Point {
    rect(x, y, 0, 0).origin
}

fn frames(shift: i64) -> TrafficLightFrames {
    TrafficLightFrames {
        titlebar: rect(0, 572 + shift, 800, 28),
        close: rect(7 + shift, 6, 14, 16),
        minimize: rect(27 + shift, 6, 14, 16),
        zoom: rect(47 + shift, 6, 14, 16),
    }
}

#[test]
fn traffic_light_is_placed() {
    let mut light = TrafficLight::new(Some(at(9, 10)));
    let plan = light.move_traffic_light(false, 600 * POINT, Some(frames(0)));
    match plan {
        TrafficLightPlan::Place(layout) => {
            assert_eq!(layout.titlebar, rect(0, 564, 800, 36));
            assert_eq!(layout.close, at(9, 10));
            assert_eq!(layout.minimize, at(29, 10));
            assert_eq!(layout.zoom, at(49, 10));
        }
        plan => panic!("{plan:?}"),
    }
    assert_eq!(light.frames, Some(frames(0)));
}

#[test]
fn traffic_light_is_restored_to_its_first_frames() {
    let mut light = TrafficLight::new(Some(at(9, 10)));
    light.move_traffic_light(false, 600 * POINT, Some(frames(0)));
    light.move_traffic_light(false, 700 * POINT, Some(frames(3)));
    assert_eq!(light.frames, Some(frames(0)));
    assert_eq!(
        light.move_traffic_light(true, 700 * POINT, Some(frames(3))),
        TrafficLightPlan::Restore(frames(0))
    );
    assert_eq!(light.frames, None);
    assert_eq!(light.restore_traffic_light(Some(frames(3))), TrafficLightPlan::Keep);
}

#[test]
fn traffic_light_moves_about_and_comes_back() {
    let mut light = TrafficLight::new(Some(at(9, 10)));
    for (step, position) in [at(9, 10), at(12, 4), at(3, 3), at(9, 10)].into_iter().enumerate() {
        light.set_traffic_light_position(position);
        let live = (step != 2).then(|| frames(step as i64));
        light.move_traffic_light(false, 600 * POINT, live);
    }
    assert_eq!(light.position, Some(at(9, 10)));
    assert_eq!(
        light.restore_traffic_light(Some(frames(9))),
        TrafficLightPlan::Restore(frames(0))
    );
}

#[test]
fn traffic_light_layout_is_in_single_precision() {
    let mut light = TrafficLight::new(Some(Point {
        x: (0.1f32 as f64 * POINT as f64) as i64,
        y: (0.7f32 as f64 * POINT as f64) as i64,
    }));
    let live = TrafficLightFrames {
        close: Rect {
            size: Size {
                width: (14.3 * POINT as f64) as i64,
                height: (16.7 * POINT as f64) as i64,
            },
            ..frames(0).close
        },
        ..frames(0)
    };
    let float = |value: i64| value as f64 / POINT as f64;
    let width = float(live.close.size.width);
    let height = float(live.close.size.height) as f32;
    let padding = (27.0 - 7.0 - width) as f32;
    let container = height + 0.7f32 + 0.7f32;
    let minimize = 0.1f32 + width as f32 + padding;
    let zoom = minimize + width as f32 + padding;
    match light.move_traffic_light(false, 601 * POINT, Some(live)) {
        TrafficLightPlan::Place(layout) => {
            assert_eq!(float(layout.titlebar.size.height), container as f64);
            assert_eq!(float(layout.titlebar.origin.y), (601.0f32 - container) as f64);
            assert_eq!(float(layout.minimize.x), minimize as f64);
            assert_eq!(float(layout.zoom.x), zoom as f64);
        }
        plan => panic!("{plan:?}"),
    }
}

#[test]
fn traffic_light_stays_without_a_position_or_buttons() {
    let mut light = TrafficLight::new(None);
    assert_eq!(
        light.move_traffic_light(false, 600 * POINT, Some(frames(0))),
        TrafficLightPlan::Keep
    );
    assert_eq!(light.frames, None);
    light.set_traffic_light_position(at(1, 2));
    assert_eq!(light.move_traffic_light(false, 600 * POINT, None), TrafficLightPlan::Keep);
    light.move_traffic_light(false, 600 * POINT, Some(frames(0)));
    assert_eq!(light.restore_traffic_light(None), TrafficLightPlan::Keep);
    assert_eq!(light.frames, None);
}

fn geometry(style_mask: u64, frame: Rect) -> WindowGeometry {
    WindowGeometry {
        style_mask,
        frame,
        screen_frame: Some(rect(0, 0, 1920, 1080)),
    }
}

#[test]
fn simple_fullscreen_is_entered_and_left() {
    let style = STYLE_TITLED | STYLE_RESIZABLE;
    let before = geometry(style, rect(100, 200, 800, 600));
    let mut state = FullscreenState::new();
    let plan = state.toggle_simple_fullscreen(before).expect("a plan");
    let screen_frame = rect(0, 0, 1920, 1080);
    assert_eq!(plan, SimpleFullscreenPlan::Enter { screen_frame });
    assert!(state.is_simple_fullscreen());
    assert_eq!(
        apply_simple_fullscreen_plan(plan),
        [
            SimpleFullscreenAction::PushPresentationOptions,
            SimpleFullscreenAction::SetStyleMask(0),
            SimpleFullscreenAction::SetFrame(screen_frame),
            SimpleFullscreenAction::MakeKeyAndOrderFront,
            SimpleFullscreenAction::MakeViewFirstResponder,
        ]
    );
    let during = geometry(0, screen_frame);
    assert_eq!(
        state.window_bounds(during, before.frame.size),
        WindowBounds::Windowed(rect(100, 280, 800, 600))
    );
    let plan = state.toggle_simple_fullscreen(during).expect("a plan");
    assert_eq!(
        apply_simple_fullscreen_plan(plan)[..3],
        [
            SimpleFullscreenAction::PopPresentationOptions,
            SimpleFullscreenAction::SetStyleMask(style),
            SimpleFullscreenAction::SetFrame(before.frame),
        ]
    );
    assert_eq!(state, FullscreenState::new());
}

#[test]
fn simple_fullscreen_needs_a_screen_and_no_native_fullscreen() {
    let mut state = FullscreenState::new();
    let mut window = geometry(STYLE_FULL_SCREEN, rect(0, 0, 1920, 1080));
    assert_eq!(state.toggle_simple_fullscreen(window), None);
    window.style_mask = STYLE_TITLED;
    window.screen_frame = None;
    assert_eq!(state.toggle_simple_fullscreen(window), None);
    assert_eq!(state, FullscreenState::new());
}

#[test]
fn fullscreen_window_is_restored_to_its_earlier_bounds() {
    let mut state = FullscreenState::new();
    state.restore_bounds = rect(1, 2, 3, 4);
    let window = geometry(STYLE_FULL_SCREEN | STYLE_TITLED, rect(0, 0, 1920, 1080));
    assert!(is_fullscreen(window.style_mask));
    assert_eq!(
        state.window_bounds(window, window.frame.size),
        WindowBounds::Fullscreen(rect(1, 2, 3, 4))
    );
    let windowed = geometry(STYLE_TITLED, rect(10, 20, 30, 40));
    assert!(!is_fullscreen(windowed.style_mask));
    assert_eq!(
        state.window_bounds(windowed, window.frame.size),
        WindowBounds::Windowed(rect(10, 1020, 30, 40))
    );
}

#[test]
fn presentation_options_come_back_with_the_last_window() {
    let mut app = None;
    let mut options = 0x40;
    for set in [
        push_simple_fullscreen_presentation_options(&mut app, options),
        push_simple_fullscreen_presentation_options(&mut app, 5),
    ] {
        options = set.unwrap_or(options);
    }
    assert_eq!(options, 5);
    assert_eq!(app.map(|state| state.window_count), Some(2));
    assert_eq!(pop_simple_fullscreen_presentation_options(&mut app), None);
    assert_eq!(pop_simple_fullscreen_presentation_options(&mut app), Some(0x40));
    assert_eq!(app, None);
    assert_eq!(pop_simple_fullscreen_presentation_options(&mut app), None);
}

#[test]
fn presentation_options_are_kept_while_one_window_is_left() {
    let mut app = None;
    let mut options = 0x40;
    for _ in 0..5 {
        let set = push_simple_fullscreen_presentation_options(&mut app, options);
        options = set.unwrap_or(options);
    }
    for left in [4, 3, 2, 1] {
        assert_eq!(pop_simple_fullscreen_presentation_options(&mut app), None);
        let state = app.expect("a window in simple fullscreen");
        assert_eq!(state.window_count, left);
        assert_eq!(state.saved_presentation_options, 0x40);
    }
    assert_eq!(pop_simple_fullscreen_presentation_options(&mut app), Some(0x40));
    assert_eq!(app, None);
}

#[test]
fn double_click_does_what_the_user_chose() {
    for (setting, action) in [
        ("None", Nothing),
        ("Minimize", Minimize),
        ("Maximize", Zoom),
        ("Fill", Zoom),
        ("", Zoom),
        ("minimize", Zoom),
    ] {
        assert_eq!(double_click_action(setting, true, true), action, "{setting}");
        let bytes = setting.as_bytes();
        assert_eq!(follow_up_double_click(false, Some(bytes), true, true), action);
        assert_eq!(follow_up_double_click(true, Some(bytes), true, true), Nothing);
        assert_eq!(double_click_action(setting, false, false), Nothing);
    }
    assert_eq!(follow_up_double_click(false, None, true, false), Zoom);
    assert_eq!(double_click_action("Minimize", true, false), Nothing);
}

#[test]
fn background_decides_about_the_blurred_view() {
    let opaque = plan_background(Opaque, Some(3));
    assert!(opaque.opaque && !opaque.renderer_transparent);
    assert_eq!(opaque.alpha, 10_000);
    assert_eq!(opaque.blur, BlurPlan::Remove { blurred_view: 3 });
    let transparent = plan_background(Transparent, None);
    assert!(!transparent.opaque && transparent.renderer_transparent);
    assert_eq!(transparent.alpha, 1);
    assert_eq!(transparent.blur, BlurPlan::Keep);
    assert_eq!(plan_background(Blurred, None).blur, BlurPlan::Add);
    assert_eq!(plan_background(Blurred, Some(3)).blur, BlurPlan::Keep);
}

#[test]
fn titlebar_belongs_to_the_application_or_to_the_system() {
    let bounds = rect(0, 0, 800, 600);
    assert_eq!(opaque_rect_for_window_move(true, bounds), bounds);
    assert_eq!(opaque_rect_for_window_move(false, bounds), rect(0, 0, 0, 0));
    assert_eq!(collapsed_tab_bar(rect(1, 2, 300, 40)), rect(1, 2, 300, 0));
    assert_eq!(
        opaque_fullscreen_titlebar_since(),
        SystemVersion {
            major: 15,
            minor: 3,
            patch: 0
        }
    );
}
