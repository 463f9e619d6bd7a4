//! Fullscreen: AppKit's own, and simple (borderless) fullscreen on the window's screen.

use vstd::prelude::*;

use crate::geometry::{bounds_on_screen, window_bounds_of, Rect, Size};
use crate::style::{style_contains, STYLE_BORDERLESS, STYLE_FULL_SCREEN};

verus! {

/// Hides the dock until the mouse reaches it.
pub const AUTO_HIDE_DOCK: u64 = 1;

/// Hides the menu bar until the mouse reaches it.
pub const AUTO_HIDE_MENU_BAR: u64 = 4;

/// What a window is restored to when it leaves simple fullscreen.
#[derive(Clone, Copy, Debug, PartialEq, Eq, Structural)]
pub struct SimpleFullscreenState {
    pub frame: Rect,
    pub bounds: Rect,
    pub style_mask: u64,
}

/// How a window changes when simple fullscreen is toggled.
#[derive(Clone, Copy, Debug, PartialEq, Eq, Structural)]
pub enum SimpleFullscreenPlan {
    Enter { screen_frame: Rect },
    Exit(SimpleFullscreenState),
}

/// A message that carries out a [`SimpleFullscreenPlan`].
#[derive(Clone, Copy, Debug, PartialEq, Eq, Structural)]
pub enum SimpleFullscreenAction {
    /// See [`push_simple_fullscreen_presentation_options`].
    PushPresentationOptions,
    /// See [`pop_simple_fullscreen_presentation_options`].
    PopPresentationOptions,
    SetStyleMask(u64),
    SetFrame(Rect),
    MakeKeyAndOrderFront,
    MakeViewFirstResponder,
}

/// What the application remembers while windows are in simple fullscreen.
#[derive(Clone, Copy, Debug, PartialEq, Eq, Structural)]
pub struct SimpleFullscreenAppState {
    pub window_count: usize,
    pub saved_presentation_options: u64,
}

/// Bounds that a window is to be restored to.
#[derive(Clone, Copy, Debug, PartialEq, Eq, Structural)]
pub enum WindowBounds {
    Windowed(Rect),
    Fullscreen(Rect),
}

/// What AppKit says of a window.
#[derive(Clone, Copy, Debug, PartialEq, Eq, Structural)]
pub struct WindowGeometry {
    pub style_mask: u64,
    pub frame: Rect,
    /// The frame of the window's screen, if it is on one.
    pub screen_frame: Option<Rect>,
}

/// The fullscreen state of a window.
#[derive(Clone, Copy, Debug, PartialEq, Eq, Structural)]
pub struct FullscreenState {
    /// The bounds before the window entered AppKit's fullscreen.
    pub restore_bounds: Rect,
    /// What to restore the window to; `None` unless it is in simple fullscreen.
    pub simple: Option<SimpleFullscreenState>,
}

/// The application's state when one more window is in simple fullscreen.
pub open spec fn pushed(
    app_state: Option<SimpleFullscreenAppState>,
    current_options: u64,
) -> Option<SimpleFullscreenAppState> {
    match app_state {
        Some(state) => Some(
            SimpleFullscreenAppState { window_count: (state.window_count + 1) as usize, ..state },
        ),
        None => Some(
            SimpleFullscreenAppState {
                window_count: 1,
                saved_presentation_options: current_options,
            },
        ),
    }
}

/// The options to set when one more window is in simple fullscreen: those that hide the dock and
/// the menu bar, for the first window.
pub open spec fn push_sets(app_state: Option<SimpleFullscreenAppState>) -> Option<u64> {
    if app_state is None {
        Some(AUTO_HIDE_DOCK | AUTO_HIDE_MENU_BAR)
    } else {
        None
    }
}

/// The application's state when a window has left simple fullscreen.
pub open spec fn popped(
    app_state: Option<SimpleFullscreenAppState>,
) -> Option<SimpleFullscreenAppState> {
    match app_state {
        Some(state) if state.window_count > 1 => Some(
            SimpleFullscreenAppState { window_count: (state.window_count - 1) as usize, ..state },
        ),
        _ => None,
    }
}

/// The options to set when a window has left simple fullscreen: the saved ones, after the last
/// window.
pub open spec fn pop_sets(app_state: Option<SimpleFullscreenAppState>) -> Option<u64> {
    match app_state {
        Some(state) if state.window_count <= 1 => Some(state.saved_presentation_options),
        _ => None,
    }
}

/// One more window enters simple fullscreen. Returns the presentation options to set, if they
/// change.
pub fn push_simple_fullscreen_presentation_options(
    app_state: &mut Option<SimpleFullscreenAppState>,
    current_options: u64,
) -> (options: Option<u64>)
    requires
        *old(app_state) matches Some(state) ==> state.window_count < usize::MAX,
    ensures
        *final(app_state) == pushed(*old(app_state), current_options),
        options == push_sets(*old(app_state)),
{
    match *app_state {
        Some(state) => {
            *app_state = Some(
                SimpleFullscreenAppState { window_count: state.window_count + 1, ..state },
            );
            None
        },
        None => {
            *app_state = Some(
                SimpleFullscreenAppState {
                    window_count: 1,
                    saved_presentation_options: current_options,
                },
            );
            Some(AUTO_HIDE_DOCK | AUTO_HIDE_MENU_BAR)
        },
    }
}

/// A window leaves simple fullscreen. Returns the presentation options to set, if they change.
pub fn pop_simple_fullscreen_presentation_options(
    app_state: &mut Option<SimpleFullscreenAppState>,
) -> (options: Option<u64>)
    ensures
        *final(app_state) == popped(*old(app_state)),
        options == pop_sets(*old(app_state)),
{
    match *app_state {
        Some(state) => {
            let window_count: usize = state.window_count.saturating_sub(1);
            if window_count == 0 {
                *app_state = None;
                Some(state.saved_presentation_options)
            } else {
                *app_state = Some(SimpleFullscreenAppState { window_count, ..state });
                None
            }
        },
        None => None,
    }
}

/// The messages that carry out a plan, in order. A changed style mask makes AppKit take away the
/// window's key status and first responder, so both are given back.
pub open spec fn plan_actions(plan: SimpleFullscreenPlan) -> Seq<SimpleFullscreenAction> {
    match plan {
        SimpleFullscreenPlan::Exit(saved) => seq![
            SimpleFullscreenAction::PopPresentationOptions,
            SimpleFullscreenAction::SetStyleMask(saved.style_mask),
            SimpleFullscreenAction::SetFrame(saved.frame),
            SimpleFullscreenAction::MakeKeyAndOrderFront,
            SimpleFullscreenAction::MakeViewFirstResponder,
        ],
        SimpleFullscreenPlan::Enter { screen_frame } => seq![
            SimpleFullscreenAction::PushPresentationOptions,
            SimpleFullscreenAction::SetStyleMask(STYLE_BORDERLESS),
            SimpleFullscreenAction::SetFrame(screen_frame),
            SimpleFullscreenAction::MakeKeyAndOrderFront,
            SimpleFullscreenAction::MakeViewFirstResponder,
        ],
    }
}

/// Lists the messages that carry out a plan.
pub fn apply_simple_fullscreen_plan(plan: SimpleFullscreenPlan) -> (actions: Vec<
    SimpleFullscreenAction,
>)
    ensures
        actions@ == plan_actions(plan),
{
    let mut actions: Vec<SimpleFullscreenAction> = Vec::new();
    match plan {
        SimpleFullscreenPlan::Exit(saved) => {
            actions.push(SimpleFullscreenAction::PopPresentationOptions);
            actions.push(SimpleFullscreenAction::SetStyleMask(saved.style_mask));
            actions.push(SimpleFullscreenAction::SetFrame(saved.frame));
        },
        SimpleFullscreenPlan::Enter { screen_frame } => {
            actions.push(SimpleFullscreenAction::PushPresentationOptions);
            actions.push(SimpleFullscreenAction::SetStyleMask(STYLE_BORDERLESS));
            actions.push(SimpleFullscreenAction::SetFrame(screen_frame));
        },
    }
    actions.push(SimpleFullscreenAction::MakeKeyAndOrderFront);
    actions.push(SimpleFullscreenAction::MakeViewFirstResponder);
    assert(actions@ =~= plan_actions(plan));
    actions
}

/// What toggling simple fullscreen comes to: nothing in AppKit's fullscreen, with which it would
/// conflict, and nothing for a window on no screen that is to enter it.
pub open spec fn toggle_plan(
    state: FullscreenState,
    window: WindowGeometry,
) -> Option<SimpleFullscreenPlan> {
    if is_full_screen(window.style_mask) {
        None
    } else {
        match state.simple {
            Some(saved) => Some(SimpleFullscreenPlan::Exit(saved)),
            None => match window.screen_frame {
                Some(screen_frame) => Some(SimpleFullscreenPlan::Enter { screen_frame }),
                None => None,
            },
        }
    }
}

/// The fullscreen state after toggling simple fullscreen.
pub open spec fn toggled(state: FullscreenState, window: WindowGeometry) -> FullscreenState {
    match toggle_plan(state, window) {
        None => state,
        Some(SimpleFullscreenPlan::Exit(_)) => FullscreenState { simple: None, ..state },
        Some(SimpleFullscreenPlan::Enter { .. }) => FullscreenState {
            simple: Some(
                SimpleFullscreenState {
                    frame: window.frame,
                    bounds: window_bounds_of(
                        window.frame,
                        window.screen_frame,
                        Size { width: 0, height: 0 },
                    ),
                    style_mask: window.style_mask,
                },
            ),
            ..state
        },
    }
}

/// Whether a window with this style mask is in AppKit's fullscreen.
pub open spec fn is_full_screen(style_mask: u64) -> bool {
    style_mask & STYLE_FULL_SCREEN == STYLE_FULL_SCREEN
}

/// Decides [`is_full_screen`].
pub fn is_fullscreen(style_mask: u64) -> (result: bool)
    ensures
        result == is_full_screen(style_mask),
{
    style_contains(style_mask, STYLE_FULL_SCREEN)
}

impl FullscreenState {
    /// A window that has not been in fullscreen.
    pub fn new() -> (result: FullscreenState)
        ensures
            result == (FullscreenState {
                restore_bounds: crate::geometry::empty_rect(),
                simple: None,
            }),
    {
        FullscreenState {
            restore_bounds: Rect {
                origin: crate::geometry::Point { x: 0, y: 0 },
                size: Size { width: 0, height: 0 },
            },
            simple: None,
        }
    }

    /// Toggles simple fullscreen.
    pub fn toggle_simple_fullscreen(&mut self, window: WindowGeometry) -> (plan: Option<
        SimpleFullscreenPlan,
    >)
        ensures
            *final(self) == toggled(*old(self), window),
            plan == toggle_plan(*old(self), window),
    {
        if is_fullscreen(window.style_mask) {
            return None;
        }
        match self.simple.take() {
            Some(saved) => Some(SimpleFullscreenPlan::Exit(saved)),
            None => match window.screen_frame {
                None => None,
                Some(screen_frame) => {
                    self.simple = Some(
                        SimpleFullscreenState {
                            frame: window.frame,
                            bounds: bounds_on_screen(
                                window.frame,
                                Some(screen_frame),
                                Size { width: 0, height: 0 },
                            ),
                            style_mask: window.style_mask,
                        },
                    );
                    Some(SimpleFullscreenPlan::Enter { screen_frame })
                },
            },
        }
    }

    /// Whether the window is in simple fullscreen.
    pub fn is_simple_fullscreen(&self) -> (result: bool)
        ensures
            result == (self.simple is Some),
    {
        self.simple.is_some()
    }

    /// The bounds that the window is to be restored to: those from before fullscreen, of either
    /// kind, or the current ones.
    pub fn window_bounds(&self, window: WindowGeometry, default_size: Size) -> (result:
        WindowBounds)
        ensures
            result == restorable_bounds(*self, window, default_size),
    {
        if is_fullscreen(window.style_mask) {
            WindowBounds::Fullscreen(self.restore_bounds)
        } else {
            match self.simple {
                Some(state) => WindowBounds::Windowed(state.bounds),
                None => WindowBounds::Windowed(
                    bounds_on_screen(window.frame, window.screen_frame, default_size),
                ),
            }
        }
    }
}

/// The bounds that a window is to be restored to.
pub open spec fn restorable_bounds(
    state: FullscreenState,
    window: WindowGeometry,
    default_size: Size,
) -> WindowBounds {
    if is_full_screen(window.style_mask) {
        WindowBounds::Fullscreen(state.restore_bounds)
    } else {
        match state.simple {
            Some(saved) => WindowBounds::Windowed(saved.bounds),
            None => WindowBounds::Windowed(
                window_bounds_of(window.frame, window.screen_frame, default_size),
            ),
        }
    }
}

/// Leaving simple fullscreen restores the frame and the style that the window had on entering,
/// whatever was done to it in between, and leaves the fullscreen state as it was.
pub proof fn toggling_twice_restores_the_window(
    state: FullscreenState,
    before: WindowGeometry,
    during: WindowGeometry,
)
    requires
        state.simple is None,
        before.screen_frame is Some,
        !is_full_screen(before.style_mask),
        !is_full_screen(during.style_mask),
    ensures
        ({
            let entered = toggled(state, before);
            let plan = toggle_plan(entered, during);
            &&& toggle_plan(state, before) is Some && toggle_plan(state, before)->0 is Enter
            &&& entered.simple is Some
            &&& plan matches Some(SimpleFullscreenPlan::Exit(saved)) && saved.frame == before.frame
                && saved.style_mask == before.style_mask && plan_actions(plan->0)[1]
                == SimpleFullscreenAction::SetStyleMask(before.style_mask) && plan_actions(
                plan->0,
            )[2] == SimpleFullscreenAction::SetFrame(before.frame)
            &&& toggled(entered, during) == state
        }),
{
}

/// While a window is in simple fullscreen its restorable bounds are those from before.
pub proof fn simple_fullscreen_keeps_the_restorable_bounds(
    state: FullscreenState,
    before: WindowGeometry,
    during: WindowGeometry,
    default_size: Size,
)
    requires
        state.simple is None,
        before.screen_frame is Some,
        !is_full_screen(before.style_mask),
        !is_full_screen(during.style_mask),
    ensures
        restorable_bounds(toggled(state, before), during, default_size) == restorable_bounds(
            state,
            before,
            default_size,
        ),
{
}

/// AppKit's fullscreen and simple fullscreen do not mix: in AppKit's fullscreen a request to
/// toggle simple fullscreen changes nothing.
pub proof fn native_fullscreen_ignores_simple_fullscreen(
    state: FullscreenState,
    window: WindowGeometry,
)
    requires
        is_full_screen(window.style_mask),
    ensures
        toggle_plan(state, window) is None,
        toggled(state, window) == state,
{
}

/// The number of windows that are in simple fullscreen.
pub open spec fn simple_fullscreen_windows(windows: Seq<FullscreenState>) -> nat
    decreases windows.len(),
{
    if windows.len() == 0 {
        0
    } else {
        simple_fullscreen_windows(windows.drop_last()) + if windows.last().simple is Some {
            1nat
        } else {
            0nat
        }
    }
}

/// The number of windows for which the application's state accounts.
pub open spec fn accounted_windows(app_state: Option<SimpleFullscreenAppState>) -> nat {
    match app_state {
        Some(state) => state.window_count as nat,
        None => 0,
    }
}

/// The application accounts for exactly the windows that are in simple fullscreen, and the
/// presentation options are `normal` while there is none.
pub open spec fn balanced(
    windows: Seq<FullscreenState>,
    app_state: Option<SimpleFullscreenAppState>,
    options: u64,
    normal: u64,
) -> bool {
    &&& accounted_windows(app_state) == simple_fullscreen_windows(windows)
    &&& match app_state {
        Some(state) => state.window_count > 0 && state.saved_presentation_options == normal,
        None => options == normal,
    }
}

/// The presentation options after a message that may set them.
pub open spec fn options_after(options: u64, set: Option<u64>) -> u64 {
    match set {
        Some(set) => set,
        None => options,
    }
}

/// The application's state and its presentation options when `n` windows have entered simple
/// fullscreen, one after the other.
pub open spec fn pushed_times(
    app_state: Option<SimpleFullscreenAppState>,
    options: u64,
    n: nat,
) -> (Option<SimpleFullscreenAppState>, u64)
    decreases n,
{
    if n == 0 {
        (app_state, options)
    } else {
        let (before, shown) = pushed_times(app_state, options, (n - 1) as nat);
        (pushed(before, shown), options_after(shown, push_sets(before)))
    }
}

/// The application's state and its presentation options when `n` windows have left simple
/// fullscreen, one after the other.
pub open spec fn popped_times(
    app_state: Option<SimpleFullscreenAppState>,
    options: u64,
    n: nat,
) -> (Option<SimpleFullscreenAppState>, u64)
    decreases n,
{
    if n == 0 {
        (app_state, options)
    } else {
        let (before, shown) = popped_times(app_state, options, (n - 1) as nat);
        (popped(before), options_after(shown, pop_sets(before)))
    }
}

proof fn lemma_pushed_times(options: u64, n: nat)
    requires
        0 < n <= usize::MAX,
    ensures
        pushed_times(None, options, n) == (
            Some(
                SimpleFullscreenAppState {
                    window_count: n as usize,
                    saved_presentation_options: options,
                },
            ),
            AUTO_HIDE_DOCK | AUTO_HIDE_MENU_BAR,
        ),
    decreases n,
{
    reveal_with_fuel(pushed_times, 2);
    if n > 1 {
        lemma_pushed_times(options, (n - 1) as nat);
    }
}

/// Of `n` windows that entered simple fullscreen, `k` leave it: while one is left, the Dock and
/// the menu bar stay hidden and the options from before the first one are kept; when none is left,
/// those options are set again and nothing is kept, however often windows leave after that.
pub proof fn presentation_options_follow_the_last_window(options: u64, n: nat, k: nat)
    requires
        0 < n <= usize::MAX,
    ensures
        ({
            let (entered, hidden) = pushed_times(None, options, n);
            let (left, shown) = popped_times(entered, hidden, k);
            if k < n {
                &&& left == Some(
                    SimpleFullscreenAppState {
                        window_count: (n - k) as usize,
                        saved_presentation_options: options,
                    },
                )
                &&& shown == AUTO_HIDE_DOCK | AUTO_HIDE_MENU_BAR
            } else {
                left is None && shown == options
            }
        }),
    decreases k,
{
    lemma_pushed_times(options, n);
    reveal_with_fuel(popped_times, 2);
    if k > 0 {
        presentation_options_follow_the_last_window(options, n, (k - 1) as nat);
    }
}

proof fn lemma_window_update(windows: Seq<FullscreenState>, i: int, state: FullscreenState)
    requires
        0 <= i < windows.len(),
    ensures
        simple_fullscreen_windows(windows.update(i, state)) == simple_fullscreen_windows(windows)
            + (if state.simple is Some {
            1int
        } else {
            0int
        }) - (if windows[i].simple is Some {
            1int
        } else {
            0int
        }),
    decreases windows.len(),
{
    let updated = windows.update(i, state);
    if i == windows.len() - 1 {
        assert(updated.drop_last() =~= windows.drop_last());
    } else {
        assert(updated.drop_last() =~= windows.drop_last().update(i, state));
        lemma_window_update(windows.drop_last(), i, state);
    }
}

/// Toggling simple fullscreen of a window, and carrying out the plan, keeps the balance.
pub proof fn toggling_keeps_the_balance(
    windows: Seq<FullscreenState>,
    i: int,
    window: WindowGeometry,
    app_state: Option<SimpleFullscreenAppState>,
    options: u64,
    normal: u64,
)
    requires
        0 <= i < windows.len(),
        balanced(windows, app_state, options, normal),
        accounted_windows(app_state) < usize::MAX,
    ensures
        ({
            let after = windows.update(i, toggled(windows[i], window));
            match toggle_plan(windows[i], window) {
                None => after =~= windows,
                Some(SimpleFullscreenPlan::Enter { .. }) => balanced(
                    after,
                    pushed(app_state, options),
                    options_after(options, push_sets(app_state)),
                    normal,
                ),
                Some(SimpleFullscreenPlan::Exit(_)) => balanced(
                    after,
                    popped(app_state),
                    options_after(options, pop_sets(app_state)),
                    normal,
                ),
            }
        }),
{
    lemma_window_update(windows, i, toggled(windows[i], window));
}

/// Closing a window, which leaves simple fullscreen if it was in it, keeps the balance.
pub proof fn closing_keeps_the_balance(
    windows: Seq<FullscreenState>,
    i: int,
    app_state: Option<SimpleFullscreenAppState>,
    options: u64,
    normal: u64,
)
    requires
        0 <= i < windows.len(),
        balanced(windows, app_state, options, normal),
    ensures
        ({
            let after = windows.update(i, FullscreenState { simple: None, ..windows[i] });
            if windows[i].simple is Some {
                balanced(
                    after,
                    popped(app_state),
                    options_after(options, pop_sets(app_state)),
                    normal,
                )
            } else {
                balanced(after, app_state, options, normal)
            }
        }),
{
    lemma_window_update(windows, i, FullscreenState { simple: None, ..windows[i] });
}

/// When no window is in simple fullscreen any more, the presentation options are those from
/// before the first one entered it.
pub proof fn balance_restores_the_presentation_options(
    windows: Seq<FullscreenState>,
    app_state: Option<SimpleFullscreenAppState>,
    options: u64,
    normal: u64,
)
    requires
        balanced(windows, app_state, options, normal),
        forall|i: int| 0 <= i < windows.len() ==> (#[trigger] windows[i]).simple is None,
    ensures
        app_state is None,
        options == normal,
{
    lemma_no_simple_fullscreen(windows);
}

proof fn lemma_no_simple_fullscreen(windows: Seq<FullscreenState>)
    requires
        forall|i: int| 0 <= i < windows.len() ==> (#[trigger] windows[i]).simple is None,
    ensures
        simple_fullscreen_windows(windows) == 0,
    decreases windows.len(),
{
    if windows.len() > 0 {
        lemma_no_simple_fullscreen(windows.drop_last());
    }
}

/// A window that is not in AppKit's fullscreen and is on a screen enters simple fullscreen on that
/// screen: borderless, with the frame of the screen, and with the dock and the menu bar hidden; it
/// remembers its frame, its style and its bounds, and is in front with its view having the keys.
pub proof fn simple_fullscreen_fills_the_screen(
    state: FullscreenState,
    window: WindowGeometry,
    default_size: Size,
)
    requires
        state.simple is None,
        window.style_mask & 0x4000 != 0x4000,
        window.screen_frame is Some,
    ensures
        ({
            let plan = toggle_plan(state, window);
            let saved = toggled(state, window).simple;
            let actions = plan_actions(plan->0);
            &&& plan is Some && plan->0 is Enter
            &&& plan->0->screen_frame == window.screen_frame->0
            &&& saved is Some
            &&& saved->0.frame == window.frame
            &&& saved->0.style_mask == window.style_mask
            &&& saved->0.bounds == window_bounds_of(
                window.frame,
                window.screen_frame,
                default_size,
            )
            &&& toggled(state, window).restore_bounds == state.restore_bounds
            &&& actions == seq![
                SimpleFullscreenAction::PushPresentationOptions,
                SimpleFullscreenAction::SetStyleMask(0),
                SimpleFullscreenAction::SetFrame(window.screen_frame->0),
                SimpleFullscreenAction::MakeKeyAndOrderFront,
                SimpleFullscreenAction::MakeViewFirstResponder,
            ]
        }),
{
}

/// A window in simple fullscreen leaves it as it was before, whatever it is like now, even on no
/// screen; one that is on no screen does not enter it, and AppKit's fullscreen comes first.
pub proof fn simple_fullscreen_is_left_as_it_was_entered(
    state: FullscreenState,
    window: WindowGeometry,
)
    ensures
        window.style_mask & 0x4000 == 0x4000 ==> toggle_plan(state, window) is None && toggled(
            state,
            window,
        ) == state,
        window.style_mask & 0x4000 != 0x4000 ==> {
            &&& state.simple matches Some(saved) ==> {
                let plan = toggle_plan(state, window);
                &&& plan is Some && plan->0 == SimpleFullscreenPlan::Exit(saved)
                &&& toggled(state, window).simple is None
                &&& toggled(state, window).restore_bounds == state.restore_bounds
                &&& plan_actions(plan->0) == seq![
                    SimpleFullscreenAction::PopPresentationOptions,
                    SimpleFullscreenAction::SetStyleMask(saved.style_mask),
                    SimpleFullscreenAction::SetFrame(saved.frame),
                    SimpleFullscreenAction::MakeKeyAndOrderFront,
                    SimpleFullscreenAction::MakeViewFirstResponder,
                ]
            }
            &&& state.simple is None && window.screen_frame is None ==> toggle_plan(state, window)
                is None && toggled(state, window) == state
        },
{
}

/// A window is restored to what it was before fullscreen, as a fullscreen window if it is in
/// AppKit's; else to where it is.
pub proof fn windows_are_restored_to_before_fullscreen(
    state: FullscreenState,
    window: WindowGeometry,
    default_size: Size,
)
    ensures
        ({
            let bounds = restorable_bounds(state, window, default_size);
            let fullscreen = window.style_mask & 0x4000 == 0x4000;
            &&& bounds is Fullscreen <==> fullscreen
            &&& fullscreen ==> bounds->Fullscreen_0 == state.restore_bounds
            &&& !fullscreen && state.simple is Some ==> bounds->Windowed_0
                == state.simple->0.bounds
            &&& !fullscreen && state.simple is None ==> bounds->Windowed_0 == window_bounds_of(
                window.frame,
                window.screen_frame,
                default_size,
            )
        }),
{
}

/// The first window that enters simple fullscreen hides the dock and the menu bar, and the options
/// from before are kept; the last one that leaves sets them again. The windows in between only
/// count.
pub proof fn first_and_last_windows_set_the_options(
    state: SimpleFullscreenAppState,
    options: u64,
)
    requires
        0 < state.window_count < usize::MAX,
    ensures
        push_sets(None) == Some(5u64),
        push_sets(Some(state)) is None,
        pushed(None, options) matches Some(first) && first.window_count == 1
            && first.saved_presentation_options == options,
        pushed(Some(state), options) matches Some(more) && more.window_count == state.window_count
            + 1 && more.saved_presentation_options == state.saved_presentation_options,
        popped(None) is None && pop_sets(None) is None,
        state.window_count == 1 ==> popped(Some(state)) is None && pop_sets(Some(state)) == Some(
            state.saved_presentation_options,
        ),
        state.window_count > 1 ==> {
            &&& pop_sets(Some(state)) is None
            &&& popped(Some(state)) matches Some(fewer) && fewer.window_count
                == state.window_count - 1 && fewer.saved_presentation_options
                == state.saved_presentation_options
        },
{
    assert((1u64 | 4) == 5) by (bit_vector);
}

} // verus!
