//! What opening a window consists of.

use vstd::prelude::*;

use crate::drop_target::{accepted_types, dragged_types};
use crate::fullscreen::{is_full_screen, is_fullscreen};
use crate::geometry::{everyday_rect, windows_open_at_their_bounds};
use crate::geometry::{opening_rect, opening_rect_of, Pixels, Point, Rect, Size};
use crate::keyboard::text_of;
use crate::rounding::is_everyday;
use crate::style::{style_for, style_mask, style_means_what_was_asked, window_class};
use crate::style::{WindowClass, WindowKind};
use crate::style::{ANIMATION_UTILITY_WINDOW, LEVEL_FLOATING, LEVEL_NORMAL, LEVEL_POP_UP};
use crate::style::{BEHAVIOR_CAN_JOIN_ALL_SPACES, BEHAVIOR_FULL_SCREEN_AUXILIARY};
use crate::style::{TRACKING_ACTIVE_ALWAYS, TRACKING_IN_VISIBLE_RECT};
use crate::style::{TRACKING_MOUSE_ENTERED_AND_EXITED, TRACKING_MOUSE_MOVED};
use crate::style::{VIEW_HEIGHT_SIZABLE, VIEW_WIDTH_SIZABLE};
use crate::tabs::{opens_as_tab, should_add_as_tab, UserTabbingPreference};

verus! {

/// The titlebar of a new window.
pub struct Titlebar {
    pub title: Option<String>,
    pub appears_transparent: bool,
    pub traffic_light_position: Option<Point>,
}

/// What a new window is to be like.
pub struct WindowParams {
    pub bounds: Rect,
    pub titlebar: Option<Titlebar>,
    pub kind: WindowKind,
    pub is_movable: bool,
    pub app_owns_titlebar_drag: bool,
    pub is_resizable: bool,
    pub is_minimizable: bool,
    pub focus: bool,
    pub show: bool,
    pub window_min_size: Option<Size>,
    pub tabbing_identifier: Option<String>,
}

/// A screen, with the number of its display, if AppKit tells one.
#[derive(Clone, Copy, Debug, PartialEq, Eq, Structural)]
pub struct Screen {
    pub id: u64,
    pub display_id: Option<u32>,
    pub frame: Rect,
}

/// A display.
#[derive(Clone, Copy, Debug, PartialEq, Eq, Structural)]
pub struct Display {
    pub id: u32,
    pub height: Pixels,
}

/// The main window of the application, when another window opens.
#[derive(Clone, Copy, Debug, PartialEq, Eq, Structural)]
pub struct MainWindow {
    pub id: u64,
    pub attached_sheet: Option<u64>,
    pub style_mask: u64,
    pub can_tab: bool,
    pub is_visible: bool,
}

/// How a native window is made.
#[derive(Clone, Copy, Debug, PartialEq, Eq, Structural)]
pub struct CreationPlan {
    pub class: WindowClass,
    pub style_mask: u64,
    pub screen: u64,
    /// The content rectangle; its origin is where the top-left corner of the window goes later.
    pub rect: Rect,
    /// The size that the renderer starts with.
    pub renderer_size: Size,
    /// Whether the renderer starts with a transparent layer.
    pub renderer_transparent: bool,
}

/// A message on the way from a new native window, with a view that is not in it yet, to an open
/// window.
pub enum OpenAction {
    /// The window accepts drags whose pasteboard has one of these types.
    RegisterForDraggedTypes(Vec<&'static str>),
    /// The window is not released when it is closed.
    KeepWhenClosed,
    /// The window and its view learn of their state.
    InstallState,
    /// The window becomes its own delegate.
    BecomeDelegate,
    SetTitle(String),
    MoveTrafficLight,
    SetMovable(bool),
    SetContentMinSize(Size),
    MakeTitlebarTransparent,
    HideTitle,
    SetViewAutoresizing(u64),
    /// The view gets its layer, before it is added to the window.
    MakeViewLayerBacked,
    /// The view is redrawn while it is resized.
    RedrawDuringResize,
    AddView,
    MakeViewFirstResponder,
    SetLevel(i64),
    AcceptMouseMovedEvents,
    SetTabbingIdentifier(Option<String>),
    /// The view gets mouse events even while the window or the application is not active.
    TrackMouse { options: u64 },
    SetAnimationBehavior(i64),
    SetCollectionBehavior(u64),
    BeginSheet { parent: u64 },
    AddTab { main_window: u64 },
    OrderFront,
    MakeKeyAndOrderFront,
    SetFrameTopLeft(Point),
}

/// The view of an [`OpenAction`].
pub enum OpenActionView {
    RegisterForDraggedTypes(Seq<Seq<char>>),
    KeepWhenClosed,
    InstallState,
    BecomeDelegate,
    SetTitle(Seq<char>),
    MoveTrafficLight,
    SetMovable(bool),
    SetContentMinSize(Size),
    MakeTitlebarTransparent,
    HideTitle,
    SetViewAutoresizing(u64),
    MakeViewLayerBacked,
    RedrawDuringResize,
    AddView,
    MakeViewFirstResponder,
    SetLevel(i64),
    AcceptMouseMovedEvents,
    SetTabbingIdentifier(Option<Seq<char>>),
    TrackMouse { options: u64 },
    SetAnimationBehavior(i64),
    SetCollectionBehavior(u64),
    BeginSheet { parent: u64 },
    AddTab { main_window: u64 },
    OrderFront,
    MakeKeyAndOrderFront,
    SetFrameTopLeft(Point),
}

impl View for OpenAction {
    type V = OpenActionView;

    open spec fn view(&self) -> OpenActionView {
        match *self {
            OpenAction::RegisterForDraggedTypes(types) => OpenActionView::RegisterForDraggedTypes(
                types@.map_values(|name: &'static str| name@),
            ),
            OpenAction::KeepWhenClosed => OpenActionView::KeepWhenClosed,
            OpenAction::InstallState => OpenActionView::InstallState,
            OpenAction::BecomeDelegate => OpenActionView::BecomeDelegate,
            OpenAction::SetTitle(title) => OpenActionView::SetTitle(title@),
            OpenAction::MoveTrafficLight => OpenActionView::MoveTrafficLight,
            OpenAction::SetMovable(movable) => OpenActionView::SetMovable(movable),
            OpenAction::SetContentMinSize(size) => OpenActionView::SetContentMinSize(size),
            OpenAction::MakeTitlebarTransparent => OpenActionView::MakeTitlebarTransparent,
            OpenAction::HideTitle => OpenActionView::HideTitle,
            OpenAction::SetViewAutoresizing(mask) => OpenActionView::SetViewAutoresizing(mask),
            OpenAction::MakeViewLayerBacked => OpenActionView::MakeViewLayerBacked,
            OpenAction::RedrawDuringResize => OpenActionView::RedrawDuringResize,
            OpenAction::AddView => OpenActionView::AddView,
            OpenAction::MakeViewFirstResponder => OpenActionView::MakeViewFirstResponder,
            OpenAction::SetLevel(level) => OpenActionView::SetLevel(level),
            OpenAction::AcceptMouseMovedEvents => OpenActionView::AcceptMouseMovedEvents,
            OpenAction::SetTabbingIdentifier(id) => OpenActionView::SetTabbingIdentifier(
                text_of(id),
            ),
            OpenAction::TrackMouse { options } => OpenActionView::TrackMouse { options },
            OpenAction::SetAnimationBehavior(value) => OpenActionView::SetAnimationBehavior(value),
            OpenAction::SetCollectionBehavior(value) => OpenActionView::SetCollectionBehavior(
                value,
            ),
            OpenAction::BeginSheet { parent } => OpenActionView::BeginSheet { parent },
            OpenAction::AddTab { main_window } => OpenActionView::AddTab { main_window },
            OpenAction::OrderFront => OpenActionView::OrderFront,
            OpenAction::MakeKeyAndOrderFront => OpenActionView::MakeKeyAndOrderFront,
            OpenAction::SetFrameTopLeft(point) => OpenActionView::SetFrameTopLeft(point),
        }
    }
}

/// The views of a list of messages.
pub open spec fn action_views(actions: Seq<OpenAction>) -> Seq<OpenActionView> {
    actions.map_values(|action: OpenAction| action@)
}

impl WindowParams {
    /// Whether the titlebar is transparent, if the window has one.
    pub open spec fn titlebar_transparency(&self) -> Option<bool> {
        match self.titlebar {
            Some(titlebar) => Some(titlebar.appears_transparent),
            None => None,
        }
    }

    /// Whether nothing of a titlebar is drawn: it is transparent or missing.
    pub open spec fn hides_titlebar(&self) -> bool {
        self.titlebar_transparency() != Some(false)
    }

    /// Where the window wants its traffic lights.
    pub open spec fn traffic_light_position(&self) -> Option<Point> {
        match self.titlebar {
            Some(titlebar) => titlebar.traffic_light_position,
            None => None,
        }
    }

    /// The title of the window.
    pub open spec fn title(&self) -> Option<Seq<char>> {
        match self.titlebar {
            Some(titlebar) => text_of(titlebar.title),
            None => None,
        }
    }

    /// Computes [`WindowParams::titlebar_transparency`].
    fn transparency(&self) -> (result: Option<bool>)
        ensures
            result == self.titlebar_transparency(),
    {
        match &self.titlebar {
            Some(titlebar) => Some(titlebar.appears_transparent),
            None => None,
        }
    }
}

/// The number of the display of a screen.
pub fn display_id_for_screen(screen: Option<&Screen>) -> (result: Option<u32>)
    ensures
        result == match screen {
            Some(screen) => screen.display_id,
            None => None,
        },
{
    match screen {
        Some(screen) => screen.display_id,
        None => None,
    }
}

/// The last of the screens that shows the display, or else the main screen.
pub open spec fn screen_of(screens: Seq<Screen>, display_id: u32, main_screen: Screen) -> Screen
    decreases screens.len(),
{
    if screens.len() == 0 {
        main_screen
    } else if screens.last().display_id == Some(display_id) {
        screens.last()
    } else {
        screen_of(screens.drop_last(), display_id, main_screen)
    }
}

/// Finds the screen of a display; see [`screen_of`].
pub fn screen_for_display(screens: &[Screen], display_id: u32, main_screen: Screen) -> (screen:
    Screen)
    ensures
        screen == screen_of(screens@, display_id, main_screen),
{
    let mut target: Screen = main_screen;
    let mut i: usize = 0;
    while i < screens.len()
        invariant
            i <= screens@.len(),
            target == screen_of(screens@.take(i as int), display_id, main_screen),
        decreases screens@.len() - i,
    {
        assert(screens@.take(i + 1).drop_last() =~= screens@.take(i as int));
        if let Some(id) = display_id_for_screen(Some(&screens[i])) {
            if id == display_id {
                target = screens[i];
            }
        }
        i += 1;
    }
    assert(screens@.take(i as int) =~= screens@);
    target
}

/// How the native window of a new window is made. `found` is the display that was asked for, if
/// there is such a display; else the window opens on the primary one.
pub open spec fn creation_plan(
    params: WindowParams,
    found: Option<Display>,
    primary: Display,
    screens: Seq<Screen>,
    main_screen: Screen,
) -> CreationPlan {
    let display = match found {
        Some(display) => display,
        None => primary,
    };
    let screen = screen_of(screens, display.id, main_screen);
    CreationPlan {
        class: if params.kind == WindowKind::Normal {
            WindowClass::Window
        } else {
            WindowClass::Panel
        },
        style_mask: style_for(
            params.titlebar_transparency(),
            params.is_resizable,
            params.is_minimizable,
            params.kind,
        ),
        screen: screen.id,
        rect: opening_rect_of(params.bounds, screen.frame, display.height),
        renderer_size: params.bounds.size,
        renderer_transparent: false,
    }
}

/// Computes [`creation_plan`].
pub fn plan_creation(
    params: &WindowParams,
    found: Option<Display>,
    primary: Display,
    screens: &[Screen],
    main_screen: Screen,
) -> (plan: CreationPlan)
    ensures
        plan == creation_plan(*params, found, primary, screens@, main_screen),
{
    let display: Display = match found {
        Some(display) => display,
        None => primary,
    };
    let screen = screen_for_display(screens, display.id, main_screen);
    CreationPlan {
        class: window_class(params.kind),
        style_mask: style_mask(
            params.transparency(),
            params.is_resizable,
            params.is_minimizable,
            params.kind,
        ),
        screen: screen.id,
        rect: opening_rect(params.bounds, screen.frame, display.height),
        renderer_size: params.bounds.size,
        renderer_transparent: false,
    }
}

/// The window that a dialog is attached to: the innermost sheet of the main window, or the main
/// window itself.
pub open spec fn sheet_parent_of(kind: WindowKind, main_window: Option<MainWindow>) -> Option<u64> {
    match (kind, main_window) {
        (WindowKind::Dialog, Some(main)) => Some(
            match main.attached_sheet {
                Some(sheet) => sheet,
                None => main.id,
            },
        ),
        _ => None,
    }
}

/// Computes [`sheet_parent_of`].
pub fn sheet_parent(kind: WindowKind, main_window: Option<MainWindow>) -> (parent: Option<u64>)
    ensures
        parent == sheet_parent_of(kind, main_window),
{
    match (kind, main_window) {
        (WindowKind::Dialog, Some(main)) => match main.attached_sheet {
            Some(sheet) => Some(sheet),
            None => Some(main.id),
        },
        _ => None,
    }
}

/// The window that a new window becomes a tab of.
pub open spec fn tab_target(
    params: WindowParams,
    native_window: u64,
    main_window: Option<MainWindow>,
    preference: Option<UserTabbingPreference>,
) -> Option<MainWindow> {
    match main_window {
        Some(main) if params.tabbing_identifier is Some && main.id != native_window && main.can_tab
            && main.is_visible && opens_as_tab(
            match preference {
                Some(preference) => preference,
                None => UserTabbingPreference::InFullScreen,
            },
            is_full_screen(main.style_mask),
        ) => Some(main),
        _ => None,
    }
}

/// The first messages: what the native window needs before it can be used.
pub open spec fn setup_actions(params: WindowParams) -> Seq<OpenActionView> {
    seq![
        OpenActionView::RegisterForDraggedTypes(accepted_types()),
        OpenActionView::KeepWhenClosed,
        OpenActionView::InstallState,
        OpenActionView::BecomeDelegate,
    ] + match params.title() {
        Some(title) => seq![OpenActionView::SetTitle(title), OpenActionView::MoveTrafficLight],
        None => Seq::empty(),
    } + seq![OpenActionView::SetMovable(params.is_movable)] + match params.window_min_size {
        Some(size) => seq![OpenActionView::SetContentMinSize(size)],
        None => Seq::empty(),
    } + if params.hides_titlebar() {
        seq![OpenActionView::MakeTitlebarTransparent, OpenActionView::HideTitle]
    } else {
        Seq::empty()
    }
}

/// The messages that put the view into the window.
pub open spec fn view_actions() -> Seq<OpenActionView> {
    seq![
        OpenActionView::SetViewAutoresizing(VIEW_WIDTH_SIZABLE | VIEW_HEIGHT_SIZABLE),
        OpenActionView::MakeViewLayerBacked,
        OpenActionView::RedrawDuringResize,
        OpenActionView::AddView,
        OpenActionView::MakeViewFirstResponder,
    ]
}

/// The messages that depend on the kind of the window.
pub open spec fn kind_actions(params: WindowParams, main_window: Option<MainWindow>) -> Seq<
    OpenActionView,
> {
    match params.kind {
        WindowKind::Normal | WindowKind::Floating => seq![
            OpenActionView::SetLevel(
                if params.kind == WindowKind::Floating {
                    LEVEL_FLOATING
                } else {
                    LEVEL_NORMAL
                },
            ),
            OpenActionView::AcceptMouseMovedEvents,
            OpenActionView::SetTabbingIdentifier(text_of(params.tabbing_identifier)),
        ],
        WindowKind::PopUp | WindowKind::AnchoredPopup => seq![
            OpenActionView::TrackMouse {
                options: TRACKING_MOUSE_ENTERED_AND_EXITED | TRACKING_MOUSE_MOVED
                    | TRACKING_ACTIVE_ALWAYS | TRACKING_IN_VISIBLE_RECT,
            },
            OpenActionView::SetLevel(LEVEL_POP_UP),
            OpenActionView::SetAnimationBehavior(ANIMATION_UTILITY_WINDOW),
            OpenActionView::SetCollectionBehavior(
                BEHAVIOR_CAN_JOIN_ALL_SPACES | BEHAVIOR_FULL_SCREEN_AUXILIARY,
            ),
        ],
        WindowKind::Dialog => match sheet_parent_of(params.kind, main_window) {
            Some(parent) => seq![OpenActionView::BeginSheet { parent }],
            None => Seq::empty(),
        },
    }
}

/// The messages that make the window a tab. A window in fullscreen would leave it if its new tab
/// was ordered to the front.
pub open spec fn tab_actions(target: Option<MainWindow>) -> Seq<OpenActionView> {
    match target {
        Some(main) => {
            let added = seq![OpenActionView::AddTab { main_window: main.id }];
            if is_full_screen(main.style_mask) {
                added
            } else {
                added.push(OpenActionView::OrderFront)
            }
        },
        None => Seq::empty(),
    }
}

/// The messages that show the window.
pub open spec fn show_actions(focus: bool, show: bool) -> Seq<OpenActionView> {
    if focus && show {
        seq![OpenActionView::MakeKeyAndOrderFront]
    } else if show {
        seq![OpenActionView::OrderFront]
    } else {
        Seq::empty()
    }
}

/// The last messages. The position from the creation may be wrong by now: it depends on which
/// screen has the focus.
pub open spec fn final_actions(origin: Point) -> Seq<OpenActionView> {
    seq![OpenActionView::SetFrameTopLeft(origin), OpenActionView::MoveTrafficLight]
}

/// All messages that open a window, in order: those of [`plan_setup`], of [`plan_kind`] and of
/// [`plan_showing`].
pub open spec fn opening_actions(
    params: WindowParams,
    plan: CreationPlan,
    native_window: u64,
    main_window: Option<MainWindow>,
    preference: Option<UserTabbingPreference>,
) -> Seq<OpenActionView> {
    setup_actions(params) + view_actions() + kind_actions(params, main_window) + tab_actions(
        tab_target(params, native_window, main_window, preference),
    ) + show_actions(params.focus, params.show) + final_actions(plan.rect.origin)
}

fn clone_text(text: &Option<String>) -> (result: Option<String>)
    ensures
        text_of(result) == text_of(*text),
{
    match text {
        Some(text) => Some(text.clone()),
        None => None,
    }
}

fn push_setup_actions(actions: &mut Vec<OpenAction>, params: &WindowParams)
    ensures
        action_views(final(actions)@) == action_views(old(actions)@) + setup_actions(*params),
{
    let ghost before = actions@;
    actions.push(OpenAction::RegisterForDraggedTypes(dragged_types()));
    actions.push(OpenAction::KeepWhenClosed);
    actions.push(OpenAction::InstallState);
    actions.push(OpenAction::BecomeDelegate);
    if let Some(titlebar) = &params.titlebar {
        if let Some(title) = &titlebar.title {
            actions.push(OpenAction::SetTitle(title.clone()));
            actions.push(OpenAction::MoveTrafficLight);
        }
    }
    actions.push(OpenAction::SetMovable(params.is_movable));
    if let Some(size) = params.window_min_size {
        actions.push(OpenAction::SetContentMinSize(size));
    }
    let hides_titlebar: bool = match params.transparency() {
        Some(transparent) => transparent,
        None => true,
    };
    if hides_titlebar {
        actions.push(OpenAction::MakeTitlebarTransparent);
        actions.push(OpenAction::HideTitle);
    }
    assert(action_views(actions@) =~= action_views(before) + setup_actions(*params));
}

fn push_view_actions(actions: &mut Vec<OpenAction>)
    ensures
        action_views(final(actions)@) == action_views(old(actions)@) + view_actions(),
{
    let ghost before = actions@;
    actions.push(OpenAction::SetViewAutoresizing(VIEW_WIDTH_SIZABLE | VIEW_HEIGHT_SIZABLE));
    actions.push(OpenAction::MakeViewLayerBacked);
    actions.push(OpenAction::RedrawDuringResize);
    actions.push(OpenAction::AddView);
    actions.push(OpenAction::MakeViewFirstResponder);
    assert(action_views(actions@) =~= action_views(before) + view_actions());
}

fn push_kind_actions(
    actions: &mut Vec<OpenAction>,
    params: &WindowParams,
    main_window: Option<MainWindow>,
)
    ensures
        action_views(final(actions)@) == action_views(old(actions)@) + kind_actions(
            *params,
            main_window,
        ),
{
    let ghost before = actions@;
    match params.kind {
        WindowKind::Normal | WindowKind::Floating => {
            actions.push(
                OpenAction::SetLevel(
                    match params.kind {
                        WindowKind::Floating => LEVEL_FLOATING,
                        _ => LEVEL_NORMAL,
                    },
                ),
            );
            actions.push(OpenAction::AcceptMouseMovedEvents);
            actions.push(
                OpenAction::SetTabbingIdentifier(clone_text(&params.tabbing_identifier)),
            );
        },
        WindowKind::PopUp | WindowKind::AnchoredPopup => {
            actions.push(
                OpenAction::TrackMouse {
                    options: TRACKING_MOUSE_ENTERED_AND_EXITED | TRACKING_MOUSE_MOVED
                        | TRACKING_ACTIVE_ALWAYS | TRACKING_IN_VISIBLE_RECT,
                },
            );
            actions.push(OpenAction::SetLevel(LEVEL_POP_UP));
            actions.push(OpenAction::SetAnimationBehavior(ANIMATION_UTILITY_WINDOW));
            actions.push(
                OpenAction::SetCollectionBehavior(
                    BEHAVIOR_CAN_JOIN_ALL_SPACES | BEHAVIOR_FULL_SCREEN_AUXILIARY,
                ),
            );
        },
        WindowKind::Dialog => {
            if let Some(parent) = sheet_parent(params.kind, main_window) {
                actions.push(OpenAction::BeginSheet { parent });
            }
        },
    }
    assert(action_views(actions@) =~= action_views(before) + kind_actions(*params, main_window));
}

fn push_tab_actions(
    actions: &mut Vec<OpenAction>,
    params: &WindowParams,
    native_window: u64,
    main_window: Option<MainWindow>,
    preference: Option<UserTabbingPreference>,
)
    ensures
        action_views(final(actions)@) == action_views(old(actions)@) + tab_actions(
            tab_target(*params, native_window, main_window, preference),
        ),
{
    let ghost before = actions@;
    if let Some(main) = main_window {
        if params.tabbing_identifier.is_some() && main.id != native_window {
            let main_is_fullscreen = is_fullscreen(main.style_mask);
            let preference: UserTabbingPreference = match preference {
                Some(preference) => preference,
                None => UserTabbingPreference::InFullScreen,
            };
            if should_add_as_tab(preference, main_is_fullscreen) && main.can_tab
                && main.is_visible {
                actions.push(OpenAction::AddTab { main_window: main.id });
                if !main_is_fullscreen {
                    actions.push(OpenAction::OrderFront);
                }
            }
        }
    }
    assert(action_views(actions@) =~= action_views(before) + tab_actions(
        tab_target(*params, native_window, main_window, preference),
    ));
}

fn push_show_actions(actions: &mut Vec<OpenAction>, focus: bool, show: bool, origin: Point)
    ensures
        action_views(final(actions)@) == action_views(old(actions)@) + show_actions(focus, show)
            + final_actions(origin),
{
    let ghost before = actions@;
    if focus && show {
        actions.push(OpenAction::MakeKeyAndOrderFront);
    } else if show {
        actions.push(OpenAction::OrderFront);
    }
    actions.push(OpenAction::SetFrameTopLeft(origin));
    actions.push(OpenAction::MoveTrafficLight);
    assert(action_views(actions@) =~= action_views(before) + show_actions(focus, show)
        + final_actions(origin));
}

/// Lists the messages that a new native window gets first, whatever other windows there are.
pub fn plan_setup(params: &WindowParams) -> (actions: Vec<OpenAction>)
    ensures
        action_views(actions@) == setup_actions(*params) + view_actions(),
{
    let mut actions: Vec<OpenAction> = Vec::new();
    assert(action_views(actions@) =~= Seq::empty());
    push_setup_actions(&mut actions, params);
    push_view_actions(&mut actions);
    assert(action_views(actions@) =~= setup_actions(*params) + view_actions());
    actions
}

/// Lists the messages that depend on the kind of the window. `main_window` is the main window of
/// the application after the messages of [`plan_setup`] were sent.
pub fn plan_kind(params: &WindowParams, main_window: Option<MainWindow>) -> (actions: Vec<
    OpenAction,
>)
    ensures
        action_views(actions@) == kind_actions(*params, main_window),
{
    let mut actions: Vec<OpenAction> = Vec::new();
    assert(action_views(actions@) =~= Seq::empty());
    push_kind_actions(&mut actions, params, main_window);
    assert(action_views(actions@) =~= kind_actions(*params, main_window));
    actions
}

/// Lists the messages that make a window a tab of another one, show it and place it.
/// `main_window` is that of [`plan_kind`], as it is after the messages of that function were sent.
pub fn plan_showing(
    params: &WindowParams,
    plan: CreationPlan,
    native_window: u64,
    main_window: Option<MainWindow>,
    preference: Option<UserTabbingPreference>,
) -> (actions: Vec<OpenAction>)
    ensures
        action_views(actions@) == tab_actions(
            tab_target(*params, native_window, main_window, preference),
        ) + show_actions(params.focus, params.show) + final_actions(plan.rect.origin),
{
    let mut actions: Vec<OpenAction> = Vec::new();
    assert(action_views(actions@) =~= Seq::empty());
    push_tab_actions(&mut actions, params, native_window, main_window, preference);
    push_show_actions(&mut actions, params.focus, params.show, plan.rect.origin);
    assert(action_views(actions@) =~= tab_actions(
        tab_target(*params, native_window, main_window, preference),
    ) + show_actions(params.focus, params.show) + final_actions(plan.rect.origin));
    actions
}

/// Whether one of the messages is `action`.
pub open spec fn sends(actions: Seq<OpenActionView>, action: OpenActionView) -> bool {
    actions.contains(action)
}

proof fn lemma_sends_concat(
    left: Seq<OpenActionView>,
    right: Seq<OpenActionView>,
    action: OpenActionView,
)
    ensures
        sends(left + right, action) == (sends(left, action) || sends(right, action)),
{
    let both = left + right;
    if sends(left, action) {
        let k = choose|k: int| 0 <= k < left.len() && left[k] == action;
        assert(both[k] == action);
    }
    if sends(right, action) {
        let k = choose|k: int| 0 <= k < right.len() && right[k] == action;
        assert(both[left.len() + k] == action);
    }
    if sends(both, action) {
        let k = choose|k: int| 0 <= k < both.len() && both[k] == action;
        if k < left.len() {
            assert(left[k] == action);
        } else {
            assert(right[k - left.len()] == action);
        }
    }
}

proof fn lemma_opening_sends(
    params: WindowParams,
    plan: CreationPlan,
    native_window: u64,
    main_window: Option<MainWindow>,
    preference: Option<UserTabbingPreference>,
    action: OpenActionView,
)
    ensures
        ({
            let target = tab_target(params, native_window, main_window, preference);
            sends(opening_actions(params, plan, native_window, main_window, preference), action)
                == (sends(setup_actions(params), action) || sends(view_actions(), action) || sends(
                kind_actions(params, main_window),
                action,
            ) || sends(tab_actions(target), action) || sends(
                show_actions(params.focus, params.show),
                action,
            ) || sends(final_actions(plan.rect.origin), action))
        }),
{
    let setup = setup_actions(params);
    let view = view_actions();
    let kind = kind_actions(params, main_window);
    let tab = tab_actions(tab_target(params, native_window, main_window, preference));
    let show = show_actions(params.focus, params.show);
    let last = final_actions(plan.rect.origin);
    lemma_sends_concat(setup, view, action);
    lemma_sends_concat(setup + view, kind, action);
    lemma_sends_concat(setup + view + kind, tab, action);
    lemma_sends_concat(setup + view + kind + tab, show, action);
    lemma_sends_concat(setup + view + kind + tab + show, last, action);
}

proof fn lemma_list_sends(actions: Seq<OpenActionView>, action: OpenActionView)
    ensures
        actions.len() == 0 ==> !sends(actions, action),
        actions.len() > 0 ==> sends(actions, action) == (actions.last() == action || sends(
            actions.drop_last(),
            action,
        )),
{
    if actions.len() > 0 {
        if sends(actions, action) {
            let k = choose|k: int| 0 <= k < actions.len() && actions[k] == action;
            if k < actions.len() - 1 {
                assert(actions.drop_last()[k] == action);
            }
        }
        if sends(actions.drop_last(), action) {
            let k = choose|k: int|
                0 <= k < actions.drop_last().len() && actions.drop_last()[k] == action;
            assert(actions[k] == action);
        }
        if actions.last() == action {
            assert(actions[actions.len() - 1] == action);
        }
    }
}

proof fn lemma_setup_sends(params: WindowParams, action: OpenActionView)
    ensures
        sends(setup_actions(params), action) == {
            ||| action == OpenActionView::RegisterForDraggedTypes(accepted_types())
            ||| action is KeepWhenClosed || action is InstallState || action is BecomeDelegate
            ||| params.title() matches Some(title) && (action == OpenActionView::SetTitle(title)
                || action is MoveTrafficLight)
            ||| action == OpenActionView::SetMovable(params.is_movable)
            ||| params.window_min_size matches Some(size) && action
                == OpenActionView::SetContentMinSize(size)
            ||| params.hides_titlebar() && (action is MakeTitlebarTransparent || action
                is HideTitle)
        },
{
    let registered = seq![
        OpenActionView::RegisterForDraggedTypes(accepted_types()),
        OpenActionView::KeepWhenClosed,
        OpenActionView::InstallState,
        OpenActionView::BecomeDelegate,
    ];
    let titled = match params.title() {
        Some(title) => seq![OpenActionView::SetTitle(title), OpenActionView::MoveTrafficLight],
        None => Seq::empty(),
    };
    let movable = seq![OpenActionView::SetMovable(params.is_movable)];
    let limited = match params.window_min_size {
        Some(size) => seq![OpenActionView::SetContentMinSize(size)],
        None => Seq::empty(),
    };
    let hidden = if params.hides_titlebar() {
        seq![OpenActionView::MakeTitlebarTransparent, OpenActionView::HideTitle]
    } else {
        Seq::empty()
    };
    lemma_sends_concat(registered, titled, action);
    lemma_sends_concat(registered + titled, movable, action);
    lemma_sends_concat(registered + titled + movable, limited, action);
    lemma_sends_concat(registered + titled + movable + limited, hidden, action);
    assert(sends(registered, action) == (action == registered[0] || action is KeepWhenClosed
        || action is InstallState || action is BecomeDelegate)) by {
        assert(registered.drop_last().drop_last().drop_last().drop_last() =~= Seq::empty());
        lemma_list_sends(registered, action);
        lemma_list_sends(registered.drop_last(), action);
        lemma_list_sends(registered.drop_last().drop_last(), action);
        lemma_list_sends(registered.drop_last().drop_last().drop_last(), action);
        lemma_list_sends(Seq::empty(), action);
    }
    lemma_short_list_sends(titled, action);
    lemma_short_list_sends(movable, action);
    lemma_short_list_sends(limited, action);
    lemma_short_list_sends(hidden, action);
}

proof fn lemma_short_list_sends(actions: Seq<OpenActionView>, action: OpenActionView)
    requires
        actions.len() <= 2,
    ensures
        sends(actions, action) == (actions.len() > 0 && actions[0] == action || actions.len() > 1
            && actions[1] == action),
{
    if actions.len() > 0 && actions[0] == action {
        assert(sends(actions, action));
    }
    if actions.len() > 1 && actions[1] == action {
        assert(sends(actions, action));
    }
}

proof fn lemma_view_sends(action: OpenActionView)
    ensures
        sends(view_actions(), action) == {
            ||| action == OpenActionView::SetViewAutoresizing(18)
            ||| action is MakeViewLayerBacked || action is RedrawDuringResize || action is AddView
            ||| action is MakeViewFirstResponder
        },
{
    assert((VIEW_WIDTH_SIZABLE | VIEW_HEIGHT_SIZABLE) == 18u64) by (bit_vector);
    let view = view_actions();
    assert(view.drop_last().drop_last().drop_last().drop_last().drop_last() =~= Seq::empty());
    lemma_list_sends(view, action);
    lemma_list_sends(view.drop_last(), action);
    lemma_list_sends(view.drop_last().drop_last(), action);
    lemma_list_sends(view.drop_last().drop_last().drop_last(), action);
    lemma_list_sends(view.drop_last().drop_last().drop_last().drop_last(), action);
    lemma_list_sends(Seq::empty(), action);
}

proof fn lemma_kind_sends(
    params: WindowParams,
    main_window: Option<MainWindow>,
    action: OpenActionView,
)
    ensures
        sends(kind_actions(params, main_window), action) == match params.kind {
            WindowKind::Normal | WindowKind::Floating => {
                ||| action == OpenActionView::SetLevel(
                    if params.kind == WindowKind::Floating {
                        3
                    } else {
                        0
                    },
                )
                ||| action is AcceptMouseMovedEvents
                ||| action == OpenActionView::SetTabbingIdentifier(
                    text_of(params.tabbing_identifier),
                )
            },
            WindowKind::PopUp | WindowKind::AnchoredPopup => {
                ||| action == OpenActionView::TrackMouse { options: 0x283 }
                ||| action == OpenActionView::SetLevel(101)
                ||| action == OpenActionView::SetAnimationBehavior(4)
                ||| action == OpenActionView::SetCollectionBehavior(0x101)
            },
            WindowKind::Dialog => match main_window {
                Some(main) => action == (OpenActionView::BeginSheet {
                    parent: match main.attached_sheet {
                        Some(sheet) => sheet,
                        None => main.id,
                    },
                }),
                None => false,
            },
        },
{
    assert((TRACKING_MOUSE_ENTERED_AND_EXITED | TRACKING_MOUSE_MOVED | TRACKING_ACTIVE_ALWAYS
        | TRACKING_IN_VISIBLE_RECT) == 0x283u64) by (bit_vector);
    assert((BEHAVIOR_CAN_JOIN_ALL_SPACES | BEHAVIOR_FULL_SCREEN_AUXILIARY) == 0x101u64)
        by (bit_vector);
    let kind = kind_actions(params, main_window);
    lemma_list_sends(kind, action);
    if kind.len() > 0 {
        lemma_list_sends(kind.drop_last(), action);
    }
    if kind.len() > 1 {
        lemma_list_sends(kind.drop_last().drop_last(), action);
    }
    if kind.len() > 2 {
        lemma_list_sends(kind.drop_last().drop_last().drop_last(), action);
    }
    if kind.len() > 3 {
        lemma_list_sends(kind.drop_last().drop_last().drop_last().drop_last(), action);
    }
}

/// Which messages are sent when a window opens.
proof fn lemma_sent(
    params: WindowParams,
    plan: CreationPlan,
    native_window: u64,
    main_window: Option<MainWindow>,
    preference: Option<UserTabbingPreference>,
    action: OpenActionView,
)
    ensures
        ({
            let target = tab_target(params, native_window, main_window, preference);
            sends(opening_actions(params, plan, native_window, main_window, preference), action)
                == {
                ||| sends(setup_actions(params), action)
                ||| sends(view_actions(), action)
                ||| sends(kind_actions(params, main_window), action)
                ||| target matches Some(main) && (action == (OpenActionView::AddTab {
                    main_window: main.id,
                }) || action is OrderFront && !is_full_screen(main.style_mask))
                ||| params.show && (if params.focus {
                    action is MakeKeyAndOrderFront
                } else {
                    action is OrderFront
                })
                ||| action == OpenActionView::SetFrameTopLeft(plan.rect.origin)
                ||| action is MoveTrafficLight
            }
        }),
{
    lemma_opening_sends(params, plan, native_window, main_window, preference, action);
    let target = tab_target(params, native_window, main_window, preference);
    lemma_short_list_sends(tab_actions(target), action);
    lemma_short_list_sends(show_actions(params.focus, params.show), action);
    lemma_short_list_sends(final_actions(plan.rect.origin), action);
}

/// Whether a message concerns other windows or the order of windows.
spec fn is_about_windows(action: OpenActionView) -> bool {
    action is AddTab || action is BeginSheet || action is OrderFront || action
        is MakeKeyAndOrderFront
}

proof fn lemma_first_and_last_leave_windows_alone(
    params: WindowParams,
    origin: Point,
    action: OpenActionView,
)
    requires
        is_about_windows(action),
    ensures
        !sends(setup_actions(params), action),
        !sends(view_actions(), action),
        !sends(final_actions(origin), action),
{
    let registered = seq![
        OpenActionView::RegisterForDraggedTypes(accepted_types()),
        OpenActionView::KeepWhenClosed,
        OpenActionView::InstallState,
        OpenActionView::BecomeDelegate,
    ];
    let titled = match params.title() {
        Some(title) => seq![OpenActionView::SetTitle(title), OpenActionView::MoveTrafficLight],
        None => Seq::empty(),
    };
    let movable = seq![OpenActionView::SetMovable(params.is_movable)];
    let limited = match params.window_min_size {
        Some(size) => seq![OpenActionView::SetContentMinSize(size)],
        None => Seq::empty(),
    };
    let hidden = if params.hides_titlebar() {
        seq![OpenActionView::MakeTitlebarTransparent, OpenActionView::HideTitle]
    } else {
        Seq::empty()
    };
    lemma_sends_concat(registered, titled, action);
    lemma_sends_concat(registered + titled, movable, action);
    lemma_sends_concat(registered + titled + movable, limited, action);
    lemma_sends_concat(registered + titled + movable + limited, hidden, action);
}

/// A window becomes the key window exactly if it is to be shown and focused.
pub proof fn window_becomes_key_if_asked(
    params: WindowParams,
    plan: CreationPlan,
    native_window: u64,
    main_window: Option<MainWindow>,
    preference: Option<UserTabbingPreference>,
)
    ensures
        sends(
            opening_actions(params, plan, native_window, main_window, preference),
            OpenActionView::MakeKeyAndOrderFront,
        ) == (params.focus && params.show),
{
    let action = OpenActionView::MakeKeyAndOrderFront;
    lemma_sent(params, plan, native_window, main_window, preference, action);
    lemma_first_and_last_leave_windows_alone(params, plan.rect.origin, action);
    lemma_kind_sends(params, main_window, action);
}

/// A window that is not to be shown is ordered to the front only as a new tab of a window that is
/// not in fullscreen.
pub proof fn hidden_window_stays_back(
    params: WindowParams,
    plan: CreationPlan,
    native_window: u64,
    main_window: Option<MainWindow>,
    preference: Option<UserTabbingPreference>,
)
    requires
        !params.show,
    ensures
        sends(
            opening_actions(params, plan, native_window, main_window, preference),
            OpenActionView::OrderFront,
        ) == (tab_target(params, native_window, main_window, preference) matches Some(main)
            && !is_full_screen(main.style_mask)),
{
    let action = OpenActionView::OrderFront;
    lemma_sent(params, plan, native_window, main_window, preference, action);
    lemma_first_and_last_leave_windows_alone(params, plan.rect.origin, action);
    lemma_kind_sends(params, main_window, action);
}

/// A window becomes a tab only of a visible main window other than itself, and only if it may be a
/// tab and the user wants tabs.
pub proof fn window_becomes_a_tab_if_wanted(
    params: WindowParams,
    plan: CreationPlan,
    native_window: u64,
    main_window: Option<MainWindow>,
    preference: Option<UserTabbingPreference>,
    id: u64,
)
    requires
        sends(
            opening_actions(params, plan, native_window, main_window, preference),
            OpenActionView::AddTab { main_window: id },
        ),
    ensures
        params.tabbing_identifier is Some,
        main_window matches Some(main) && main.id == id && id != native_window && main.is_visible,
        preference != Some(UserTabbingPreference::Never),
{
    let action = OpenActionView::AddTab { main_window: id };
    lemma_sent(params, plan, native_window, main_window, preference, action);
    lemma_first_and_last_leave_windows_alone(params, plan.rect.origin, action);
    lemma_kind_sends(params, main_window, action);
}

/// Only a dialog is attached to another window as a sheet, and it is whenever there is a main
/// window.
pub proof fn dialogs_are_sheets(
    params: WindowParams,
    plan: CreationPlan,
    native_window: u64,
    main_window: Option<MainWindow>,
    preference: Option<UserTabbingPreference>,
    parent: u64,
)
    ensures
        sends(
            opening_actions(params, plan, native_window, main_window, preference),
            OpenActionView::BeginSheet { parent },
        ) == (sheet_parent_of(params.kind, main_window) == Some(parent)),
        (sheet_parent_of(params.kind, main_window) is Some) == (params.kind == WindowKind::Dialog
            && main_window is Some),
{
    let action = OpenActionView::BeginSheet { parent };
    lemma_sent(params, plan, native_window, main_window, preference, action);
    lemma_first_and_last_leave_windows_alone(params, plan.rect.origin, action);
    lemma_kind_sends(params, main_window, action);
}

/// The titlebar becomes transparent, and the title is hidden, exactly if the window has no titlebar
/// or one that is to appear transparent.
pub proof fn transparent_titlebars_hide_the_title(
    params: WindowParams,
    plan: CreationPlan,
    native_window: u64,
    main_window: Option<MainWindow>,
    preference: Option<UserTabbingPreference>,
)
    ensures
        ({
            let sent = opening_actions(params, plan, native_window, main_window, preference);
            let hidden = match params.titlebar {
                None => true,
                Some(titlebar) => titlebar.appears_transparent,
            };
            &&& sends(sent, OpenActionView::MakeTitlebarTransparent) == hidden
            &&& sends(sent, OpenActionView::HideTitle) == hidden
        }),
{
    lemma_sent(
        params,
        plan,
        native_window,
        main_window,
        preference,
        OpenActionView::MakeTitlebarTransparent,
    );
    lemma_setup_sends(params, OpenActionView::MakeTitlebarTransparent);
    lemma_view_sends(OpenActionView::MakeTitlebarTransparent);
    lemma_kind_sends(params, main_window, OpenActionView::MakeTitlebarTransparent);
    lemma_sent(params, plan, native_window, main_window, preference, OpenActionView::HideTitle);
    lemma_setup_sends(params, OpenActionView::HideTitle);
    lemma_view_sends(OpenActionView::HideTitle);
    lemma_kind_sends(params, main_window, OpenActionView::HideTitle);
}

/// A window gets the title of its titlebar, if that has one, and no other.
pub proof fn windows_get_their_title(
    params: WindowParams,
    plan: CreationPlan,
    native_window: u64,
    main_window: Option<MainWindow>,
    preference: Option<UserTabbingPreference>,
    title: Seq<char>,
)
    ensures
        ({
            let sent = opening_actions(params, plan, native_window, main_window, preference);
            sends(sent, OpenActionView::SetTitle(title)) == (params.titlebar matches Some(titlebar)
                && titlebar.title matches Some(text) && text@ == title)
        }),
{
    lemma_sent(
        params,
        plan,
        native_window,
        main_window,
        preference,
        OpenActionView::SetTitle(title),
    );
    lemma_setup_sends(params, OpenActionView::SetTitle(title));
    lemma_view_sends(OpenActionView::SetTitle(title));
    lemma_kind_sends(params, main_window, OpenActionView::SetTitle(title));
}

/// A window is movable as it is to be, and has the minimal size that it is to have, if any.
pub proof fn windows_move_and_shrink_as_asked(
    params: WindowParams,
    plan: CreationPlan,
    native_window: u64,
    main_window: Option<MainWindow>,
    preference: Option<UserTabbingPreference>,
    movable: bool,
    size: Size,
)
    ensures
        ({
            let sent = opening_actions(params, plan, native_window, main_window, preference);
            &&& sends(sent, OpenActionView::SetMovable(movable)) == (movable == params.is_movable)
            &&& sends(sent, OpenActionView::SetContentMinSize(size)) == (params.window_min_size
                == Some(size))
        }),
{
    lemma_sent(
        params,
        plan,
        native_window,
        main_window,
        preference,
        OpenActionView::SetMovable(movable),
    );
    lemma_setup_sends(params, OpenActionView::SetMovable(movable));
    lemma_view_sends(OpenActionView::SetMovable(movable));
    lemma_kind_sends(params, main_window, OpenActionView::SetMovable(movable));
    lemma_sent(
        params,
        plan,
        native_window,
        main_window,
        preference,
        OpenActionView::SetContentMinSize(size),
    );
    lemma_setup_sends(params, OpenActionView::SetContentMinSize(size));
    lemma_view_sends(OpenActionView::SetContentMinSize(size));
    lemma_kind_sends(params, main_window, OpenActionView::SetContentMinSize(size));
}

/// Every window is kept when it is closed, knows its state, is its own delegate, and accepts drags of
/// files and of custom payloads, and of nothing else. Its view has a layer, is redrawn during a
/// resize, is resized in both directions with the window, is in the window and has the keys. The
/// window goes where the plan says, and its traffic lights are moved.
pub proof fn every_window_is_set_up(
    params: WindowParams,
    plan: CreationPlan,
    native_window: u64,
    main_window: Option<MainWindow>,
    preference: Option<UserTabbingPreference>,
    types: Seq<Seq<char>>,
    mask: u64,
    origin: Point,
)
    ensures
        ({
            let sent = opening_actions(params, plan, native_window, main_window, preference);
            &&& sends(sent, OpenActionView::KeepWhenClosed)
            &&& sends(sent, OpenActionView::InstallState)
            &&& sends(sent, OpenActionView::BecomeDelegate)
            &&& sends(sent, OpenActionView::MakeViewLayerBacked)
            &&& sends(sent, OpenActionView::RedrawDuringResize)
            &&& sends(sent, OpenActionView::AddView)
            &&& sends(sent, OpenActionView::MakeViewFirstResponder)
            &&& sends(sent, OpenActionView::MoveTrafficLight)
            &&& sends(sent, OpenActionView::RegisterForDraggedTypes(types)) == (types == seq![
                "NSFilenamesPboardType"@,
                "org.gpui.custom-drag"@,
            ])
            &&& sends(sent, OpenActionView::SetViewAutoresizing(mask)) == (mask == 2 + 16)
            &&& sends(sent, OpenActionView::SetFrameTopLeft(origin)) == (origin
                == plan.rect.origin)
        }),
{
    lemma_sent(
        params,
        plan,
        native_window,
        main_window,
        preference,
        OpenActionView::KeepWhenClosed,
    );
    lemma_setup_sends(params, OpenActionView::KeepWhenClosed);
    lemma_view_sends(OpenActionView::KeepWhenClosed);
    lemma_kind_sends(params, main_window, OpenActionView::KeepWhenClosed);
    lemma_sent(params, plan, native_window, main_window, preference, OpenActionView::InstallState);
    lemma_setup_sends(params, OpenActionView::InstallState);
    lemma_view_sends(OpenActionView::InstallState);
    lemma_kind_sends(params, main_window, OpenActionView::InstallState);
    lemma_sent(
        params,
        plan,
        native_window,
        main_window,
        preference,
        OpenActionView::BecomeDelegate,
    );
    lemma_setup_sends(params, OpenActionView::BecomeDelegate);
    lemma_view_sends(OpenActionView::BecomeDelegate);
    lemma_kind_sends(params, main_window, OpenActionView::BecomeDelegate);
    lemma_sent(
        params,
        plan,
        native_window,
        main_window,
        preference,
        OpenActionView::MakeViewLayerBacked,
    );
    lemma_setup_sends(params, OpenActionView::MakeViewLayerBacked);
    lemma_view_sends(OpenActionView::MakeViewLayerBacked);
    lemma_kind_sends(params, main_window, OpenActionView::MakeViewLayerBacked);
    lemma_sent(
        params,
        plan,
        native_window,
        main_window,
        preference,
        OpenActionView::RedrawDuringResize,
    );
    lemma_setup_sends(params, OpenActionView::RedrawDuringResize);
    lemma_view_sends(OpenActionView::RedrawDuringResize);
    lemma_kind_sends(params, main_window, OpenActionView::RedrawDuringResize);
    lemma_sent(params, plan, native_window, main_window, preference, OpenActionView::AddView);
    lemma_setup_sends(params, OpenActionView::AddView);
    lemma_view_sends(OpenActionView::AddView);
    lemma_kind_sends(params, main_window, OpenActionView::AddView);
    lemma_sent(
        params,
        plan,
        native_window,
        main_window,
        preference,
        OpenActionView::MakeViewFirstResponder,
    );
    lemma_setup_sends(params, OpenActionView::MakeViewFirstResponder);
    lemma_view_sends(OpenActionView::MakeViewFirstResponder);
    lemma_kind_sends(params, main_window, OpenActionView::MakeViewFirstResponder);
    lemma_sent(
        params,
        plan,
        native_window,
        main_window,
        preference,
        OpenActionView::MoveTrafficLight,
    );
    lemma_setup_sends(params, OpenActionView::MoveTrafficLight);
    lemma_view_sends(OpenActionView::MoveTrafficLight);
    lemma_kind_sends(params, main_window, OpenActionView::MoveTrafficLight);
    lemma_sent(
        params,
        plan,
        native_window,
        main_window,
        preference,
        OpenActionView::RegisterForDraggedTypes(types),
    );
    lemma_setup_sends(params, OpenActionView::RegisterForDraggedTypes(types));
    lemma_view_sends(OpenActionView::RegisterForDraggedTypes(types));
    lemma_kind_sends(params, main_window, OpenActionView::RegisterForDraggedTypes(types));
    lemma_sent(
        params,
        plan,
        native_window,
        main_window,
        preference,
        OpenActionView::SetViewAutoresizing(mask),
    );
    lemma_setup_sends(params, OpenActionView::SetViewAutoresizing(mask));
    lemma_view_sends(OpenActionView::SetViewAutoresizing(mask));
    lemma_kind_sends(params, main_window, OpenActionView::SetViewAutoresizing(mask));
    lemma_sent(
        params,
        plan,
        native_window,
        main_window,
        preference,
        OpenActionView::SetFrameTopLeft(origin),
    );
    lemma_setup_sends(params, OpenActionView::SetFrameTopLeft(origin));
    lemma_view_sends(OpenActionView::SetFrameTopLeft(origin));
    lemma_kind_sends(params, main_window, OpenActionView::SetFrameTopLeft(origin));
}

/// Normal windows stay at the normal level, floating ones float above them, and popups are above
/// both; a dialog is at the level of what it is attached to.
pub proof fn windows_have_the_level_of_their_kind(
    params: WindowParams,
    plan: CreationPlan,
    native_window: u64,
    main_window: Option<MainWindow>,
    preference: Option<UserTabbingPreference>,
    level: i64,
)
    ensures
        ({
            let sent = opening_actions(params, plan, native_window, main_window, preference);
            sends(sent, OpenActionView::SetLevel(level)) == match params.kind {
                WindowKind::Normal => level == 0,
                WindowKind::Floating => level == 3,
                WindowKind::PopUp | WindowKind::AnchoredPopup => level == 101,
                WindowKind::Dialog => false,
            }
        }),
{
    lemma_sent(
        params,
        plan,
        native_window,
        main_window,
        preference,
        OpenActionView::SetLevel(level),
    );
    lemma_setup_sends(params, OpenActionView::SetLevel(level));
    lemma_view_sends(OpenActionView::SetLevel(level));
    lemma_kind_sends(params, main_window, OpenActionView::SetLevel(level));
}

/// Normal and floating windows see the mouse move and have their tabbing identifier, or none. Popups,
/// and only they, track the mouse even while the application is inactive, open like a utility window
/// and join all spaces.
pub proof fn windows_see_the_mouse_as_their_kind_does(
    params: WindowParams,
    plan: CreationPlan,
    native_window: u64,
    main_window: Option<MainWindow>,
    preference: Option<UserTabbingPreference>,
    identifier: Option<Seq<char>>,
    options: u64,
    animation: i64,
    behavior: u64,
)
    ensures
        ({
            let sent = opening_actions(params, plan, native_window, main_window, preference);
            let ordinary = params.kind == WindowKind::Normal || params.kind == WindowKind::Floating;
            let popup = params.kind == WindowKind::PopUp || params.kind
                == WindowKind::AnchoredPopup;
            &&& sends(sent, OpenActionView::AcceptMouseMovedEvents) == ordinary
            &&& sends(sent, OpenActionView::SetTabbingIdentifier(identifier)) == (ordinary
                && match params.tabbing_identifier {
                Some(text) => identifier == Some(text@),
                None => identifier is None,
            })
            &&& sends(sent, OpenActionView::TrackMouse { options }) == (popup && options == 0x1
                + 0x2 + 0x80 + 0x200)
            &&& sends(sent, OpenActionView::SetAnimationBehavior(animation)) == (popup && animation
                == 4)
            &&& sends(sent, OpenActionView::SetCollectionBehavior(behavior)) == (popup && behavior
                == 0x1 + 0x100)
        }),
{
    lemma_sent(
        params,
        plan,
        native_window,
        main_window,
        preference,
        OpenActionView::AcceptMouseMovedEvents,
    );
    lemma_setup_sends(params, OpenActionView::AcceptMouseMovedEvents);
    lemma_view_sends(OpenActionView::AcceptMouseMovedEvents);
    lemma_kind_sends(params, main_window, OpenActionView::AcceptMouseMovedEvents);
    lemma_sent(
        params,
        plan,
        native_window,
        main_window,
        preference,
        OpenActionView::SetTabbingIdentifier(identifier),
    );
    lemma_setup_sends(params, OpenActionView::SetTabbingIdentifier(identifier));
    lemma_view_sends(OpenActionView::SetTabbingIdentifier(identifier));
    lemma_kind_sends(params, main_window, OpenActionView::SetTabbingIdentifier(identifier));
    lemma_sent(
        params,
        plan,
        native_window,
        main_window,
        preference,
        (OpenActionView::TrackMouse { options }),
    );
    lemma_setup_sends(params, (OpenActionView::TrackMouse { options }));
    lemma_view_sends((OpenActionView::TrackMouse { options }));
    lemma_kind_sends(params, main_window, (OpenActionView::TrackMouse { options }));
    lemma_sent(
        params,
        plan,
        native_window,
        main_window,
        preference,
        OpenActionView::SetAnimationBehavior(animation),
    );
    lemma_setup_sends(params, OpenActionView::SetAnimationBehavior(animation));
    lemma_view_sends(OpenActionView::SetAnimationBehavior(animation));
    lemma_kind_sends(params, main_window, OpenActionView::SetAnimationBehavior(animation));
    lemma_sent(
        params,
        plan,
        native_window,
        main_window,
        preference,
        OpenActionView::SetCollectionBehavior(behavior),
    );
    lemma_setup_sends(params, OpenActionView::SetCollectionBehavior(behavior));
    lemma_view_sends(OpenActionView::SetCollectionBehavior(behavior));
    lemma_kind_sends(params, main_window, OpenActionView::SetCollectionBehavior(behavior));
}

/// A dialog becomes a sheet of the sheet that is attached to the main window, or else of the main
/// window itself, if there is one; no other window becomes a sheet. That is the window which it
/// remembers.
pub proof fn dialogs_are_attached_to_the_innermost_sheet(
    params: WindowParams,
    plan: CreationPlan,
    native_window: u64,
    main_window: Option<MainWindow>,
    preference: Option<UserTabbingPreference>,
    parent: u64,
)
    ensures
        ({
            let sent = opening_actions(params, plan, native_window, main_window, preference);
            let attached = params.kind == WindowKind::Dialog && (main_window matches Some(main) && {
                ||| main.attached_sheet == Some(parent)
                ||| main.attached_sheet is None && main.id == parent
            });
            &&& sends(sent, OpenActionView::BeginSheet { parent }) == attached
            &&& (sheet_parent_of(params.kind, main_window) == Some(parent)) == attached
        }),
{
    lemma_sent(
        params,
        plan,
        native_window,
        main_window,
        preference,
        (OpenActionView::BeginSheet { parent }),
    );
    lemma_setup_sends(params, (OpenActionView::BeginSheet { parent }));
    lemma_view_sends((OpenActionView::BeginSheet { parent }));
    lemma_kind_sends(params, main_window, (OpenActionView::BeginSheet { parent }));
}

/// A window becomes a tab exactly if it has a tabbing identifier, there is a visible main window
/// other than itself that can have tabs, and the user wants tabs always, or in fullscreen, which is
/// also the default, and the main window is in fullscreen. A new tab is ordered to the front unless
/// the main window is in fullscreen.
pub proof fn windows_become_tabs_as_the_user_prefers(
    params: WindowParams,
    plan: CreationPlan,
    native_window: u64,
    main_window: Option<MainWindow>,
    preference: Option<UserTabbingPreference>,
    id: u64,
)
    ensures
        ({
            let sent = opening_actions(params, plan, native_window, main_window, preference);
            let tab = params.tabbing_identifier is Some && (main_window matches Some(main) && {
                let fullscreen = main.style_mask & 0x4000 == 0x4000;
                &&& main.id != native_window
                &&& main.can_tab && main.is_visible
                &&& match preference {
                    Some(UserTabbingPreference::Always) => true,
                    Some(UserTabbingPreference::Never) => false,
                    Some(UserTabbingPreference::InFullScreen) => fullscreen,
                    None => fullscreen,
                }
            });
            &&& sends(sent, OpenActionView::AddTab { main_window: id }) == (tab && id
                == main_window->0.id)
            &&& sends(sent, OpenActionView::OrderFront) == {
                ||| params.show && !params.focus
                ||| tab && main_window->0.style_mask & 0x4000 != 0x4000
            }
        }),
{
    lemma_sent(
        params,
        plan,
        native_window,
        main_window,
        preference,
        (OpenActionView::AddTab { main_window: id }),
    );
    lemma_setup_sends(params, (OpenActionView::AddTab { main_window: id }));
    lemma_view_sends((OpenActionView::AddTab { main_window: id }));
    lemma_kind_sends(params, main_window, (OpenActionView::AddTab { main_window: id }));
    lemma_sent(params, plan, native_window, main_window, preference, OpenActionView::OrderFront);
    lemma_setup_sends(params, OpenActionView::OrderFront);
    lemma_view_sends(OpenActionView::OrderFront);
    lemma_kind_sends(params, main_window, OpenActionView::OrderFront);
}

/// The state is there before anything can ask for it, the view has its layer before it is in the
/// window, and the window gets its place last.
pub proof fn windows_are_set_up_in_order(
    params: WindowParams,
    plan: CreationPlan,
    native_window: u64,
    main_window: Option<MainWindow>,
    preference: Option<UserTabbingPreference>,
)
    ensures
        ({
            let sent = opening_actions(params, plan, native_window, main_window, preference);
            let start = setup_actions(params).len() as int;
            let end = sent.len() as int;
            &&& sent[2] is InstallState && sent[3] is BecomeDelegate
            &&& forall|i: int| 0 <= i < start ==> sent[i] == setup_actions(params)[i]
            &&& sent[start + 1] is MakeViewLayerBacked && sent[start + 3] is AddView && sent[start
                + 4] is MakeViewFirstResponder
            &&& start + 5 <= end - 2
            &&& sent[end - 2] is SetFrameTopLeft && sent[end - 1] is MoveTrafficLight
        }),
{
}

/// The screen that shows a display is the last in the list with its number; if no screen has it,
/// the main screen takes its place.
pub proof fn windows_open_on_the_screen_of_their_display(
    screens: Seq<Screen>,
    display_id: u32,
    main_screen: Screen,
)
    ensures
        ({
            let screen = screen_of(screens, display_id, main_screen);
            ||| screen == main_screen && forall|i: int|
                0 <= i < screens.len() ==> (#[trigger] screens[i]).display_id != Some(display_id)
            ||| exists|i: int|
                0 <= i < screens.len() && #[trigger] screens[i] == screen && screen.display_id
                    == Some(display_id) && forall|j: int|
                    i < j < screens.len() ==> (#[trigger] screens[j]).display_id != Some(
                        display_id,
                    )
        }),
    decreases screens.len(),
{
    if screens.len() > 0 {
        let last = screens.len() - 1;
        if screens.last().display_id == Some(display_id) {
            assert(screens[last] == screens.last());
        } else {
            let before = screens.drop_last();
            windows_open_on_the_screen_of_their_display(before, display_id, main_screen);
            let screen = screen_of(before, display_id, main_screen);
            if exists|i: int|
                0 <= i < before.len() && #[trigger] before[i] == screen && screen.display_id
                    == Some(display_id) && forall|j: int|
                    i < j < before.len() ==> (#[trigger] before[j]).display_id != Some(
                        display_id,
                    ) {
                let i = choose|i: int|
                    0 <= i < before.len() && #[trigger] before[i] == screen && screen.display_id
                        == Some(display_id) && forall|j: int|
                        i < j < before.len() ==> (#[trigger] before[j]).display_id != Some(
                            display_id,
                        );
                assert(screens[i] == screen);
                assert forall|j: int| i < j < screens.len() implies (
                #[trigger] screens[j]).display_id != Some(display_id) by {
                    if j < last {
                        assert(before[j] == screens[j]);
                    }
                }
            } else {
                assert forall|i: int| 0 <= i < screens.len() implies (
                #[trigger] screens[i]).display_id != Some(display_id) by {
                    if i < last {
                        assert(before[i] == screens[i]);
                    }
                }
            }
        }
    }
}

/// A window opens on the display that was found; only if none was, the primary one takes its place.
/// The native window of a normal window is a window, that of any other a panel, and the renderer
/// starts opaque with the size of the window.
pub proof fn windows_are_created_on_the_display_that_was_found(
    params: WindowParams,
    found: Display,
    primary: Display,
    other: Display,
    screens: Seq<Screen>,
    main_screen: Screen,
)
    requires
        everyday_rect(params.bounds),
        is_everyday(found.height as int),
        everyday_rect(screen_of(screens, found.id, main_screen).frame),
    ensures
        ({
            let plan = creation_plan(params, Some(found), primary, screens, main_screen);
            let screen = screen_of(screens, found.id, main_screen);
            &&& plan == creation_plan(params, Some(found), other, screens, main_screen)
            &&& plan == creation_plan(params, None, found, screens, main_screen)
            &&& plan.screen == screen.id
            &&& (plan.class == WindowClass::Window) == (params.kind == WindowKind::Normal)
            &&& (plan.class == WindowClass::Panel) == (params.kind != WindowKind::Normal)
            &&& plan.rect.size == params.bounds.size
            &&& plan.rect.origin.x - screen.frame.origin.x == params.bounds.origin.x
            &&& screen.frame.origin.y + found.height - plan.rect.origin.y == params.bounds.origin.y
            &&& plan.renderer_size == params.bounds.size
            &&& !plan.renderer_transparent
        }),
{
    let screen = screen_of(screens, found.id, main_screen);
    windows_open_at_their_bounds(params.bounds, screen.frame, found.height);
}

/// A new window has a titlebar, which closes, resizes and minimizes it exactly if it was given one
/// and as was asked for; its content reaches under the titlebar exactly if that is transparent or
/// was not given; only popups take no activation, and no window starts in fullscreen.
pub proof fn new_windows_have_the_style_asked_for(
    params: WindowParams,
    found: Option<Display>,
    primary: Display,
    screens: Seq<Screen>,
    main_screen: Screen,
)
    ensures
        ({
            let mask = creation_plan(params, found, primary, screens, main_screen).style_mask;
            let popup = params.kind == WindowKind::PopUp || params.kind
                == WindowKind::AnchoredPopup;
            let given = params.titlebar is Some;
            &&& mask & 0x1 == 0x1
            &&& (mask & 0x2 == 0x2) == given
            &&& (mask & 0x4 == 0x4) == (given && params.is_minimizable)
            &&& (mask & 0x8 == 0x8) == (given && params.is_resizable)
            &&& (mask & 0x8000 == 0x8000) == (given ==> params.titlebar->0.appears_transparent)
            &&& (mask & 0x80 == 0x80) == popup
            &&& mask & !0x808fu64 == 0
        }),
{
    style_means_what_was_asked(
        params.titlebar_transparency(),
        params.is_resizable,
        params.is_minimizable,
        params.kind,
    );
}

/// A window remembers that its titlebar is transparent, or missing, and where it wants its traffic
/// lights, as it was asked for.
pub proof fn titlebar_is_as_asked_for(params: WindowParams)
    ensures
        params.hides_titlebar() == match params.titlebar {
            Some(titlebar) => titlebar.appears_transparent,
            None => true,
        },
        params.titlebar is None ==> params.traffic_light_position() is None,
        params.titlebar matches Some(titlebar) ==> params.traffic_light_position()
            == titlebar.traffic_light_position,
{
}

} // verus!
