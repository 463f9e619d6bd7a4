use mac_window::cursor::{reset_cursor_rects, set_cursor_style, CursorStyle, NativeCursor};
use mac_window::frames::FrameSource;
use mac_window::fullscreen::{SimpleFullscreenState, WindowBounds, WindowGeometry};
use mac_window::geometry::{Point, Rect, Size, POINT};
use mac_window::opening::{
    display_id_for_screen, plan_creation, plan_kind, plan_showing, screen_for_display, sheet_parent,
    CreationPlan, Display, MainWindow, OpenAction, Screen, Titlebar, WindowParams,
};
use mac_window::style::{
    style_contains, style_mask, window_class, WindowClass, WindowKind, STYLE_FULL_SCREEN,
    STYLE_TITLED,
};
use mac_window::tabs::UserTabbingPreference::{Always, InFullScreen, Never};
use mac_window::tabs::{
    allows_automatic_tabbing, cursor_window, should_add_as_tab, tab_bar_visible, tabbed_windows,
    tabbing_preference, NativeWindow, TabbedWindow, UserTabbingPreference,
};
use mac_window::titlebar::{BlurPlan, WindowBackgroundAppearance};
use mac_window::traffic_light::{TrafficLightFrames, TrafficLightPlan};
use mac_window::window::{
    request_attention, view_frame_size_set, ClosePlan, MacWindow, ReleasePlan, ResizePlan,
};

fn rect(x: i64, y: i64, width: i64, height: i64) -> Rect {
    Rect {
        origin: Point {
            x: x * POINT,
            y: y * POINT,
        },
        size: Size {
            width: width * POINT,
            height: height * POINT,
        },
    }
}

fn params(kind: WindowKind) -> WindowParams {
    WindowParams {
        bounds: rect(30, 40, 800, 600),
        titlebar: Some(Titlebar {
            title: Some("Editor".to_string()),
            appears_transparent: true,
            traffic_light_position: Some(rect(9, 10, 0, 0).origin),
        }),
        kind,
        is_movable: true,
        app_owns_titlebar_drag: false,
        is_resizable: true,
        is_minimizable: true,
        focus: true,
        show: true,
        window_min_size: None,
        tabbing_identifier: None,
    }
}

const MAIN: MainWindow = MainWindow {
    id: 50,
    attached_sheet: None,
    style_mask: STYLE_TITLED,
    can_tab: true,
    is_visible: true,
};

fn screen(id: u64, display_id: Option<u32>) -> Screen {
    Screen {
        id,
        display_id,
        frame: rect(0, 0, 1920, 1080),
    }
}

fn creation(params: &WindowParams) -> CreationPlan {
    let primary = Display {
        id: 1,
        height: 1080 * POINT,
    };
    plan_creation(params, None, primary, &[screen(11, Some(1))], screen(11, Some(1)))
}

fn open(
    params: &WindowParams,
    main: Option<MainWindow>,
    preference: Option<UserTabbingPreference>,
) -> (MacWindow, Vec<OpenAction>) {
    let (mut window, mut actions) = MacWindow::open(5, params, 60, 61);
    actions.extend(plan_kind(params, main));
    actions.extend(plan_showing(params, creation(params), 60, main, preference));
    window.finish_opening(params.kind, main);
    (window, actions)
}

fn orders_front(actions: &[OpenAction]) -> usize {
    actions
        .iter()
        .filter(|action| matches!(action, OpenAction::OrderFront))
        .count()
}

fn tabs_of(actions: &[OpenAction]) -> Vec<u64> {
    actions
        .iter()
        .filter_map(|action| match action {
            OpenAction::AddTab { main_window } => Some(*main_window),
            _ => None,
        })
        .collect()
}

#[test]
fn display_id_for_screen_returns_none_for_null_screen() {
    assert_eq!(display_id_for_screen(None), None);
}

#[test]
fn screens_tell_their_display() {
    assert_eq!(display_id_for_screen(Some(&screen(1, Some(7)))), Some(7));
    assert_eq!(display_id_for_screen(Some(&screen(1, None))), None);
}

#[test]
fn last_screen_of_the_display_is_chosen() {
    let main = screen(9, None);
    let screens = [
        screen(1, Some(7)),
        screen(2, None),
        screen(3, Some(7)),
        screen(4, Some(8)),
    ];
    assert_eq!(screen_for_display(&screens, 7, main).id, 3);
    assert_eq!(screen_for_display(&screens, 8, main).id, 4);
    assert_eq!(screen_for_display(&screens, 5, main).id, 9);
}

#[test]
fn window_is_created_on_the_display_that_was_found() {
    let params = params(WindowKind::Normal);
    let primary = Display {
        id: 1,
        height: 1080 * POINT,
    };
    let found = Display {
        id: 2,
        height: 900 * POINT,
    };
    let second = Screen {
        id: 12,
        display_id: Some(2),
        frame: rect(1920, 50, 1440, 900),
    };
    let screens = [screen(11, Some(1)), second];
    let plan = plan_creation(&params, Some(found), primary, &screens, screens[0]);
    assert_eq!(plan.screen, 12);
    assert_eq!(plan.rect, rect(1950, 910, 800, 600));
    assert_eq!(plan.class, WindowClass::Window);
    let plan = plan_creation(&params, None, primary, &screens, screens[0]);
    assert_eq!(plan.screen, 11);
    assert_eq!(plan.rect, rect(30, 1040, 800, 600));
}

#[test]
fn style_masks_follow_the_parameters() {
    let normal = WindowKind::Normal;
    assert_eq!(style_mask(Some(false), true, true, normal), 0xf);
    assert_eq!(style_mask(Some(true), false, false, normal), 0x8003);
    assert_eq!(style_mask(None, true, true, normal), 0x8001);
    assert_eq!(style_mask(None, true, true, WindowKind::PopUp), 0x8081);
    assert_eq!(style_mask(Some(false), false, true, WindowKind::AnchoredPopup), 0x87);
    assert_eq!(style_mask(Some(false), false, false, WindowKind::Floating), 0x3);
    assert!(style_contains(0xf, STYLE_TITLED));
    assert!(!style_contains(0xf, STYLE_FULL_SCREEN));
    assert_eq!(window_class(WindowKind::Dialog), WindowClass::Panel);
    assert_eq!(window_class(normal), WindowClass::Window);
}

#[test]
fn normal_window_opens() {
    let params = params(WindowKind::Normal);
    let (window, actions) = open(&params, None, None);
    let names: Vec<String> = actions
        .iter()
        .map(|action| match action {
            OpenAction::RegisterForDraggedTypes(types) => format!("drags {}", types.join(" ")),
            OpenAction::KeepWhenClosed => "keep".to_string(),
            OpenAction::InstallState => "state".to_string(),
            OpenAction::BecomeDelegate => "delegate".to_string(),
            OpenAction::SetTitle(title) => format!("title {title}"),
            OpenAction::MoveTrafficLight => "light".to_string(),
            OpenAction::SetMovable(movable) => format!("movable {movable}"),
            OpenAction::SetContentMinSize(size) => format!("min {}", size.width / POINT),
            OpenAction::MakeTitlebarTransparent => "transparent".to_string(),
            OpenAction::HideTitle => "hide title".to_string(),
            OpenAction::SetViewAutoresizing(mask) => format!("autoresize {mask}"),
            OpenAction::MakeViewLayerBacked => "layer".to_string(),
            OpenAction::RedrawDuringResize => "redraw".to_string(),
            OpenAction::AddView => "view".to_string(),
            OpenAction::MakeViewFirstResponder => "responder".to_string(),
            OpenAction::SetLevel(level) => format!("level {level}"),
            OpenAction::AcceptMouseMovedEvents => "mouse".to_string(),
            OpenAction::SetTabbingIdentifier(id) => format!("tabbing {id:?}"),
            OpenAction::TrackMouse { options } => format!("track {options}"),
            OpenAction::SetAnimationBehavior(value) => format!("animation {value}"),
            OpenAction::SetCollectionBehavior(value) => format!("collection {value}"),
            OpenAction::BeginSheet { parent } => format!("sheet {parent}"),
            OpenAction::AddTab { main_window } => format!("tab {main_window}"),
            OpenAction::OrderFront => "front".to_string(),
            OpenAction::MakeKeyAndOrderFront => "key".to_string(),
            OpenAction::SetFrameTopLeft(point) => format!("top left {}", point.y / POINT),
        })
        .collect();
    assert_eq!(
        names,
        [
            "drags NSFilenamesPboardType org.gpui.custom-drag",
            "keep",
            "state",
            "delegate",
            "title Editor",
            "light",
            "movable true",
            "transparent",
            "hide title",
            "autoresize 18",
            "layer",
            "redraw",
            "view",
            "responder",
            "level 0",
            "mouse",
            "tabbing None",
            "key",
            "top left 1040",
            "light",
        ]
    );
    assert_eq!(window.handle, 5);
    assert_eq!(window.native_window, 60);
    assert_eq!(window.native_view, 61);
    assert_eq!(window.traffic_light.position, Some(rect(9, 10, 0, 0).origin));
    assert!(window.transparent_titlebar);
    assert!(!window.closed);
    assert_eq!(window.sheet_parent, None);
    assert_eq!(window.frames.source, FrameSource::Absent);
}

#[test]
fn first_messages_do_not_depend_on_other_windows() {
    let params = params(WindowKind::Dialog);
    let (mut window, actions) = MacWindow::open(5, &params, 60, 61);
    assert_eq!(actions.len(), 14);
    assert!(matches!(actions.last(), Some(OpenAction::MakeViewFirstResponder)));
    assert_eq!(window.sheet_parent, None);
    window.finish_opening(params.kind, Some(MAIN));
    assert_eq!(window.sheet_parent, Some(50));
}

#[test]
fn renderer_starts_opaque_with_the_size_of_the_bounds() {
    let plan = creation(&params(WindowKind::Normal));
    assert_eq!(plan.renderer_size, rect(30, 40, 800, 600).size);
    assert!(!plan.renderer_transparent);
}

#[test]
fn popup_opens_above_everything() {
    let (window, actions) = open(
        &WindowParams {
            titlebar: None,
            window_min_size: Some(rect(0, 0, 100, 50).size),
            ..params(WindowKind::PopUp)
        },
        Some(MAIN),
        None,
    );
    assert!(window.transparent_titlebar);
    assert!(actions.iter().any(|action| matches!(
        action,
        OpenAction::TrackMouse { options: 0x283 }
    )));
    assert!(actions.iter().any(|action| matches!(action, OpenAction::SetLevel(101))));
    assert!(actions
        .iter()
        .any(|action| matches!(action, OpenAction::SetAnimationBehavior(4))));
    assert!(actions
        .iter()
        .any(|action| matches!(action, OpenAction::SetCollectionBehavior(0x101))));
    assert!(actions
        .iter()
        .any(|action| matches!(action, OpenAction::SetContentMinSize(size) if size.width == 100 * POINT)));
    assert!(!actions.iter().any(|action| matches!(action, OpenAction::SetTitle(_))));
}

#[test]
fn floating_window_floats() {
    let (_, actions) = open(&params(WindowKind::Floating), None, None);
    assert!(actions.iter().any(|action| matches!(action, OpenAction::SetLevel(3))));
}

#[test]
fn dialog_opens_as_a_sheet() {
    let params = params(WindowKind::Dialog);
    let (window, actions) = open(&params, Some(MAIN), None);
    assert_eq!(window.sheet_parent, Some(50));
    assert!(actions
        .iter()
        .any(|action| matches!(action, OpenAction::BeginSheet { parent: 50 })));
    let stacked = MainWindow {
        attached_sheet: Some(51),
        ..MAIN
    };
    assert_eq!(sheet_parent(WindowKind::Dialog, Some(stacked)), Some(51));
    assert_eq!(sheet_parent(WindowKind::Dialog, None), None);
    assert_eq!(sheet_parent(WindowKind::Normal, Some(MAIN)), None);
    let (window, actions) = open(&params, None, None);
    assert_eq!(window.sheet_parent, None);
    assert!(!actions
        .iter()
        .any(|action| matches!(action, OpenAction::BeginSheet { .. })));
}

#[test]
fn window_opens_as_a_tab_if_the_user_wants_tabs() {
    let tabbed = WindowParams {
        tabbing_identifier: Some("editor".to_string()),
        ..params(WindowKind::Normal)
    };
    assert!(allows_automatic_tabbing(&tabbed.tabbing_identifier));
    let fullscreen = MainWindow {
        style_mask: STYLE_FULL_SCREEN,
        ..MAIN
    };
    let tabs = |main, preference| tabs_of(&open(&tabbed, main, preference).1);
    assert_eq!(tabs(Some(MAIN), Some(Always)), [50]);
    assert_eq!(tabs(Some(MAIN), Some(InFullScreen)), []);
    assert_eq!(tabs(Some(MAIN), None), []);
    assert_eq!(tabs(Some(fullscreen), None), [50]);
    assert_eq!(tabs(Some(fullscreen), Some(Never)), []);
    assert_eq!(tabs(None, Some(Always)), []);
    for main in [
        MainWindow { id: 60, ..MAIN },
        MainWindow {
            can_tab: false,
            ..MAIN
        },
        MainWindow {
            is_visible: false,
            ..MAIN
        },
    ] {
        assert_eq!(tabs(Some(main), Some(Always)), []);
    }
    let untabbed = params(WindowKind::Normal);
    assert_eq!(tabs_of(&open(&untabbed, Some(MAIN), Some(Always)).1), []);
}

#[test]
fn hidden_window_comes_to_the_front_only_as_a_tab() {
    let hidden = WindowParams {
        show: false,
        tabbing_identifier: Some("editor".to_string()),
        ..params(WindowKind::Normal)
    };
    let always = Some(Always);
    let plan = creation(&hidden);
    assert_eq!(orders_front(&plan_showing(&hidden, plan, 60, None, always)), 0);
    assert_eq!(orders_front(&plan_showing(&hidden, plan, 60, Some(MAIN), always)), 1);
    let fullscreen = MainWindow {
        style_mask: STYLE_FULL_SCREEN,
        ..MAIN
    };
    assert_eq!(orders_front(&plan_showing(&hidden, plan, 60, Some(fullscreen), always)), 0);
    let unfocused = WindowParams {
        focus: false,
        ..params(WindowKind::Normal)
    };
    let (_, actions) = open(&unfocused, None, None);
    assert_eq!(orders_front(&actions), 1);
    assert!(!actions
        .iter()
        .any(|action| matches!(action, OpenAction::MakeKeyAndOrderFront)));
}

#[test]
fn preference_is_read_from_the_setting() {
    let read = |setting: &[u8]| MacWindow::get_user_tabbing_preference(Some(setting));
    assert_eq!(read(b"manual"), Some(Never));
    assert_eq!(read(b"always"), Some(Always));
    assert_eq!(read(b"fullscreen"), Some(InFullScreen));
    assert_eq!(read(b"\xff"), Some(InFullScreen));
    assert_eq!(MacWindow::get_user_tabbing_preference(None), Some(InFullScreen));
    assert_eq!(tabbing_preference("Manual"), InFullScreen);
    assert!(should_add_as_tab(Always, false));
    assert!(should_add_as_tab(InFullScreen, true));
    assert!(!should_add_as_tab(InFullScreen, false));
    assert!(!should_add_as_tab(Never, true));
    assert!(allows_automatic_tabbing(&Some(String::new())));
    assert!(!allows_automatic_tabbing(&None));
}

const OURS: NativeWindow = NativeWindow::Window { id: 1, handle: 101 };
const PANEL: NativeWindow = NativeWindow::Panel { id: 2, handle: 102 };
const OTHER: NativeWindow = NativeWindow::Foreign;

#[test]
fn windows_are_listed_in_order() {
    let last = NativeWindow::Window { id: 3, handle: 103 };
    assert_eq!(
        MacWindow::ordered_windows(&[last, OTHER, PANEL, OURS]),
        [103, 101]
    );
    assert!(MacWindow::ordered_windows(&[]).is_empty());
    assert_eq!(MacWindow::active_window(Some(OURS)), Some(101));
    assert_eq!(MacWindow::active_window(Some(PANEL)), None);
    assert_eq!(MacWindow::active_window(Some(OTHER)), None);
    assert_eq!(MacWindow::active_window(None), None);
}

#[test]
fn tabs_are_listed_with_their_titles() {
    assert!(tabbed_windows(None).is_none());
    let tabs = tabbed_windows(Some(&[
        TabbedWindow {
            window: OURS,
            title: Some(b"a\xff".to_vec()),
        },
        TabbedWindow {
            window: OTHER,
            title: Some(b"b".to_vec()),
        },
        TabbedWindow {
            window: OURS,
            title: None,
        },
    ]))
    .expect("tabs");
    let seen: Vec<(&str, u64)> = tabs.iter().map(|tab| (tab.title.as_str(), tab.handle)).collect();
    assert_eq!(seen, [("a\u{fffd}", 101), ("", 101)]);
    assert!(tab_bar_visible(Some(true)));
    assert!(!tab_bar_visible(Some(false)));
    assert!(!tab_bar_visible(None));
}

#[test]
fn cursor_belongs_to_the_key_window_or_the_main_window() {
    assert_eq!(cursor_window(Some(PANEL), Some(OURS)), Some(2));
    assert_eq!(cursor_window(Some(OTHER), Some(OURS)), Some(1));
    assert_eq!(cursor_window(None, Some(PANEL)), Some(2));
    assert_eq!(cursor_window(Some(OTHER), Some(OTHER)), None);
    assert_eq!(cursor_window(None, None), None);
    assert!(PANEL.is_gpui_window() && OURS.is_gpui_window() && !OTHER.is_gpui_window());
}

#[test]
fn cursor_styles_have_native_cursors() {
    assert_eq!(reset_cursor_rects(CursorStyle::Arrow), NativeCursor::Arrow);
    assert_eq!(reset_cursor_rects(CursorStyle::ResizeColumn), NativeCursor::ResizeLeftRight);
    assert_eq!(reset_cursor_rects(CursorStyle::ResizeRow), NativeCursor::ResizeUpDown);
    assert_eq!(
        reset_cursor_rects(CursorStyle::ResizeUpLeftDownRight),
        NativeCursor::WindowResizeNorthWestSouthEast
    );
    let mut style = CursorStyle::Arrow;
    assert!(!set_cursor_style(&mut style, CursorStyle::Arrow));
    assert!(set_cursor_style(&mut style, CursorStyle::IBeam));
    assert_eq!(style, CursorStyle::IBeam);
}

fn geometry(style_mask: u64) -> WindowGeometry {
    WindowGeometry {
        style_mask,
        frame: rect(100, 200, 800, 600),
        screen_frame: Some(rect(0, 0, 1920, 1080)),
    }
}

fn frames() -> TrafficLightFrames {
    TrafficLightFrames {
        titlebar: rect(0, 572, 800, 28),
        close: rect(7, 6, 14, 16),
        minimize: rect(27, 6, 14, 16),
        zoom: rect(47, 6, 14, 16),
    }
}

#[test]
fn fullscreen_takes_the_traffic_light_back() {
    let (mut window, _) = open(&params(WindowKind::Normal), None, None);
    let plan = window.move_traffic_light(geometry(STYLE_TITLED), Some(frames()));
    assert!(matches!(plan, TrafficLightPlan::Place(_)));
    let default = rect(0, 0, 1536, 1095).size;
    let live = Some(frames());
    let plan = window.window_will_enter_fullscreen(geometry(STYLE_TITLED), default, live, true);
    assert_eq!(plan.traffic_light, TrafficLightPlan::Restore(frames()));
    assert!(plan.make_titlebar_opaque);
    assert_eq!(window.fullscreen.restore_bounds, rect(100, 280, 800, 600));
    let during = WindowGeometry {
        frame: rect(0, 0, 1920, 1080),
        ..geometry(STYLE_FULL_SCREEN)
    };
    assert_eq!(
        window.fullscreen.window_bounds(during, default),
        WindowBounds::Fullscreen(rect(100, 280, 800, 600))
    );
    assert!(window.window_will_exit_fullscreen(true));
    assert!(!window.window_will_exit_fullscreen(false));
    let position = rect(20, 20, 0, 0).origin;
    let plan = window.set_traffic_light_position(position, geometry(STYLE_TITLED), live);
    match plan {
        TrafficLightPlan::Place(layout) => assert_eq!(layout.close, position),
        plan => panic!("{plan:?}"),
    }
}

#[test]
fn covered_window_draws_no_frames() {
    let (mut window, _) = open(&params(WindowKind::Normal), None, None);
    let plan =
        window.window_did_change_occlusion_state(true, Some(4), geometry(0), Some(frames()));
    assert!(plan.frame_source.create);
    assert!(matches!(plan.traffic_light, TrafficLightPlan::Place(_)));
    let plan =
        window.window_did_change_occlusion_state(false, Some(4), geometry(0), Some(frames()));
    assert!(plan.frame_source.stop);
    assert_eq!(plan.frame_source.start, None);
    assert_eq!(plan.traffic_light, TrafficLightPlan::Keep);
    assert_eq!(window.frames.source, FrameSource::Stopped);
}

#[test]
fn closed_window_leaves_simple_fullscreen_for_good() {
    let (mut window, _) = open(&params(WindowKind::Normal), None, None);
    window.callbacks.close = Some(8);
    assert!(window.titlebar_is_active());
    assert!(window.toggle_simple_fullscreen(geometry(STYLE_TITLED)).is_some());
    assert!(!window.titlebar_is_active());
    assert_eq!(
        window.close_window(),
        ClosePlan {
            pop_presentation_options: true,
            callback: Some(8)
        }
    );
    assert!(window.closed);
    assert_eq!(
        window.close_window(),
        ClosePlan {
            pop_presentation_options: false,
            callback: None
        }
    );
    assert_eq!(window.toggle_simple_fullscreen(geometry(STYLE_TITLED)), None);
    assert_eq!(window.fullscreen.simple, None::<SimpleFullscreenState>);
}

#[test]
fn released_window_lets_go_of_everything() {
    let (mut window, _) = open(&params(WindowKind::Dialog), Some(MAIN), None);
    window.input_handler = Some(3);
    window.frames.start_display_link(true, Some(1));
    assert_eq!(
        window.release(),
        ReleasePlan {
            drop_frame_source: true,
            drop_input_handler: Some(3),
            sheet_parent: Some(50)
        }
    );
    assert_eq!(window.frames.source, FrameSource::Absent);
    assert_eq!(
        window.release(),
        ReleasePlan {
            drop_frame_source: false,
            drop_input_handler: None,
            sheet_parent: None
        }
    );
}

#[test]
fn blurred_view_comes_and_goes_with_the_background() {
    let (mut window, _) = open(&params(WindowKind::Normal), None, None);
    let plan = window.set_background_appearance(WindowBackgroundAppearance::Blurred);
    assert_eq!(plan.blur, BlurPlan::Add);
    window.blurred_view_added(70);
    let plan = window.set_background_appearance(WindowBackgroundAppearance::Blurred);
    assert_eq!(plan.blur, BlurPlan::Keep);
    let plan = window.set_background_appearance(WindowBackgroundAppearance::Opaque);
    assert_eq!(plan.blur, BlurPlan::Remove { blurred_view: 70 });
    assert_eq!(window.blurred_view, None);
    assert_eq!(window.background_appearance, WindowBackgroundAppearance::Opaque);
}

#[test]
fn only_a_new_size_is_a_resize() {
    let size = rect(0, 0, 800, 600).size;
    let other = rect(0, 0, 800, 601).size;
    let nothing = ResizePlan {
        drawable_size: None,
        callback: None,
    };
    let (mut window, _) = open(&params(WindowKind::Normal), None, None);
    window.callbacks.resize = Some(6);
    assert_eq!(window.set_frame_size(size, size), nothing);
    assert_eq!(window.callbacks.resize, Some(6));
    let plan = view_frame_size_set(Some(&mut window), size, other);
    assert_eq!(plan.drawable_size, Some(other));
    assert_eq!(plan.callback, Some(6));
    assert_eq!(window.callbacks.resize, None);
    assert_eq!(window.set_frame_size(other, size).callback, None);
    window.finish_resize(6);
    assert_eq!(window.callbacks.resize, Some(6));
    assert_eq!(view_frame_size_set(None, size, other), nothing);
    let nearly = Size {
        width: other.width,
        height: other.height + 100,
    };
    assert_eq!(window.set_frame_size(other, nearly), nothing);
    assert_eq!(window.set_frame_size(size, nearly).drawable_size, Some(other));
    assert!(request_attention(false));
    assert!(!request_attention(true));
}

#[test]
fn another_scale_factor_is_told_even_without_a_new_size() {
    let size = rect(0, 0, 800, 600).size;
    let (mut window, _) = open(&params(WindowKind::Normal), None, None);
    let plan = window.update_scale_factor(size);
    assert_eq!(plan.drawable_size, Some(size));
    assert_eq!(plan.callback, None);
    window.callbacks.resize = Some(6);
    let plan = window.update_scale_factor(size);
    assert_eq!(plan.drawable_size, Some(size));
    assert_eq!(plan.callback, Some(6));
    assert_eq!(window.callbacks.resize, None);
    assert_eq!(window.update_scale_factor(size).callback, None);
    window.finish_resize(6);
    assert_eq!(window.callbacks.resize, Some(6));
}
