//! A window: all that it remembers, and what becomes of that.

use vstd::prelude::*;

use crate::callbacks::Callbacks;
use crate::cursor::CursorStyle;
use crate::frames::{pace_of, restart_plan, restarted};
use crate::frames::{FrameSource, FrameSourcePlan, FrameState};
use crate::fullscreen::{is_full_screen, is_fullscreen, restorable_bounds, toggle_plan, toggled};
use crate::fullscreen::{FullscreenState, SimpleFullscreenPlan, WindowBounds, WindowGeometry};
use crate::geometry::{bounds_on_screen, convert_size, empty_rect, same_size, single_size};
use crate::geometry::{everyday_point, everyday_rect};
use crate::geometry::{sizes_agree, window_bounds_of, Point, Size};
use crate::keyboard::{KeyboardState, KeyboardView};
use crate::opening::{action_views, plan_setup, setup_actions, view_actions};
use crate::opening::{sheet_parent, sheet_parent_of};
use crate::opening::{MainWindow, OpenAction, WindowParams};
use crate::pointer::PointerState;
use crate::rounding::is_everyday;
use crate::strings::objc_text;
use crate::style::WindowKind;
use crate::tabs::{active_handle, active_window_handle, handles_of, preference_for};
use crate::tabs::{user_tabbing_preference, window_handles, NativeWindow, UserTabbingPreference};
use crate::titlebar::{background_plan, plan_background};
use crate::titlebar::{BackgroundPlan, BlurPlan, WindowBackgroundAppearance};
use crate::traffic_light::{move_plan, moved, restore_plan, TrafficLight};
use crate::traffic_light::{titlebar_fits_the_buttons, TrafficLightFrames, TrafficLightPlan};

verus! {

/// A window. Handles, native objects and callbacks are numbers that the host chose.
#[derive(Debug)]
pub struct MacWindow {
    pub handle: u64,
    pub native_window: u64,
    pub native_view: u64,
    pub blurred_view: Option<u64>,
    pub background_appearance: WindowBackgroundAppearance,
    pub cursor_style: CursorStyle,
    pub frames: FrameState,
    pub callbacks: Callbacks,
    pub input_handler: Option<u64>,
    pub keyboard: KeyboardState,
    pub pointer: PointerState,
    pub traffic_light: TrafficLight,
    pub transparent_titlebar: bool,
    /// The application drags the window by the titlebar itself.
    pub app_owns_titlebar_drag: bool,
    pub fullscreen: FullscreenState,
    pub closed: bool,
    /// The window that this one is attached to as a sheet.
    pub sheet_parent: Option<u64>,
}

/// What is left to do when a window is closed.
#[derive(Clone, Copy, Debug, PartialEq, Eq, Structural)]
pub struct ClosePlan {
    /// The window was in simple fullscreen, which it leaves.
    pub pop_presentation_options: bool,
    /// The callback to call; it is not called again.
    pub callback: Option<u64>,
}

/// What is left to do when the application lets go of a window.
#[derive(Clone, Copy, Debug, PartialEq, Eq, Structural)]
pub struct ReleasePlan {
    /// The frame source to let go of, before the window loses its delegate.
    pub drop_frame_source: bool,
    pub drop_input_handler: Option<u64>,
    /// The window to end the sheet of, before this one is closed and released.
    pub sheet_parent: Option<u64>,
}

/// What happens when the view of a window gets a frame.
#[derive(Clone, Copy, Debug, PartialEq, Eq, Structural)]
pub struct ResizePlan {
    /// The size in points that the renderer draws in from now on, if it changes.
    pub drawable_size: Option<Size>,
    /// The callback to call, after that, with the size of the content and the scale factor.
    pub callback: Option<u64>,
}

/// What happens when a window enters AppKit's fullscreen.
#[derive(Clone, Copy, Debug, PartialEq, Eq, Structural)]
pub struct EnterFullscreenPlan {
    pub traffic_light: TrafficLightPlan,
    pub make_titlebar_opaque: bool,
}

/// What happens when a window is covered or uncovered.
#[derive(Clone, Copy, Debug, PartialEq, Eq, Structural)]
pub struct OcclusionPlan {
    pub traffic_light: TrafficLightPlan,
    pub frame_source: FrameSourcePlan,
}

impl MacWindow {
    /// Frames of the traffic lights are kept only if the window wants them elsewhere, a
    /// closed window is not in simple fullscreen, and only a blurred window has a blurred view.
    pub open spec fn well_formed(&self) -> bool {
        &&& self.traffic_light.frames is Some ==> self.traffic_light.position is Some
        &&& self.closed ==> self.fullscreen.simple is None
        &&& self.blurred_view is Some ==> self.background_appearance
            == WindowBackgroundAppearance::Blurred
    }

    /// Opens a window. The native window and its view have been made according to
    /// [`crate::opening::plan_creation`]; the host sends the messages in order, then those of
    /// [`crate::opening::plan_kind`] and [`crate::opening::plan_showing`], and then calls
    /// [`MacWindow::finish_opening`].
    pub fn open(
        handle: u64,
        params: &WindowParams,
        native_window: u64,
        native_view: u64,
    ) -> (result: (MacWindow, Vec<OpenAction>))
        ensures
            result.0.well_formed(),
            action_views(result.1@) == setup_actions(*params) + view_actions(),
            result.0.keyboard@ == (KeyboardView {
                last_key_equivalent: None,
                keystroke_for_do_command: None,
                do_command_handled: None,
            }),
            result.0 == opened_as(
                handle,
                *params,
                native_window,
                native_view,
                result.0.keyboard,
            ),
            result.0 == (MacWindow {
                handle,
                native_window,
                native_view,
                blurred_view: None,
                background_appearance: WindowBackgroundAppearance::Opaque,
                cursor_style: CursorStyle::Arrow,
                frames: FrameState::initial(),
                callbacks: Callbacks::none(),
                input_handler: None,
                keyboard: result.0.keyboard,
                pointer: PointerState::initial(),
                traffic_light: TrafficLight {
                    position: params.traffic_light_position(),
                    frames: None,
                },
                transparent_titlebar: params.hides_titlebar(),
                app_owns_titlebar_drag: params.app_owns_titlebar_drag,
                fullscreen: FullscreenState { restore_bounds: empty_rect(), simple: None },
                closed: false,
                sheet_parent: None,
            }),
    {
        let (position, transparent_titlebar): (Option<Point>, bool) = match &params.titlebar {
            Some(titlebar) => (titlebar.traffic_light_position, titlebar.appears_transparent),
            None => (None, true),
        };
        let window = MacWindow {
            handle,
            native_window,
            native_view,
            blurred_view: None,
            background_appearance: WindowBackgroundAppearance::Opaque,
            cursor_style: CursorStyle::Arrow,
            frames: FrameState::new(),
            callbacks: Callbacks::new(),
            input_handler: None,
            keyboard: KeyboardState::new(),
            pointer: PointerState::new(),
            traffic_light: TrafficLight::new(position),
            transparent_titlebar,
            app_owns_titlebar_drag: params.app_owns_titlebar_drag,
            fullscreen: FullscreenState::new(),
            closed: false,
            sheet_parent: None,
        };
        (window, plan_setup(params))
    }

    /// All messages that open the window have been sent. `main_window` is what
    /// [`crate::opening::plan_kind`] was given: a dialog remembers the window that it was attached
    /// to.
    pub fn finish_opening(&mut self, kind: WindowKind, main_window: Option<MainWindow>)
        ensures
            old(self).well_formed() ==> final(self).well_formed(),
            *final(self) == attached_to(*old(self), sheet_parent_of(kind, main_window)),
            *final(self) == (MacWindow {
                sheet_parent: sheet_parent_of(kind, main_window),
                ..*old(self)
            }),
    {
        self.sheet_parent = sheet_parent(kind, main_window);
    }

    /// The handle of the main window of the application, if it is a window of this library.
    pub fn active_window(main_window: Option<NativeWindow>) -> (result: Option<u64>)
        ensures
            result == active_handle(main_window),
    {
        active_window_handle(main_window)
    }

    /// The handles of this library's windows, from front to back, among the windows of the
    /// application.
    pub fn ordered_windows(windows: &[NativeWindow]) -> (handles: Vec<u64>)
        ensures
            handles@ == handles_of(windows@),
    {
        window_handles(windows)
    }

    /// When the user wants windows to open as tabs, from the global setting in UTF-8, if it is
    /// set.
    pub fn get_user_tabbing_preference(setting: Option<&[u8]>) -> (result: Option<
        UserTabbingPreference,
    >)
        ensures
            result == Some(preference_for(objc_text(setting))),
    {
        Some(user_tabbing_preference(setting))
    }

    /// Puts the traffic lights where the window wants them; see
    /// [`TrafficLight::move_traffic_light`].
    pub fn move_traffic_light(
        &mut self,
        window: WindowGeometry,
        live: Option<TrafficLightFrames>,
    ) -> (plan: TrafficLightPlan)
        ensures
            old(self).well_formed() ==> final(self).well_formed(),
            (plan, *final(self)) == light_moved(*old(self), window, live),
            plan == move_plan(
                old(self).traffic_light,
                is_full_screen(window.style_mask),
                window.frame.size.height,
                live,
            ),
            *final(self) == (MacWindow {
                traffic_light: moved(
                    old(self).traffic_light,
                    is_full_screen(window.style_mask),
                    live,
                ),
                ..*old(self)
            }),
    {
        let is_fullscreen = is_fullscreen(window.style_mask);
        self.traffic_light.move_traffic_light(is_fullscreen, window.frame.size.height, live)
    }

    /// The window wants its traffic lights elsewhere.
    pub fn set_traffic_light_position(
        &mut self,
        position: Point,
        window: WindowGeometry,
        live: Option<TrafficLightFrames>,
    ) -> (plan: TrafficLightPlan)
        ensures
            old(self).well_formed() ==> final(self).well_formed(),
            (plan, *final(self)) == light_moved(
                light_wanted_at(*old(self), position),
                window,
                live,
            ),
            ({
                let wanted = TrafficLight { position: Some(position), ..old(self).traffic_light };
                let in_fullscreen = is_full_screen(window.style_mask);
                &&& plan == move_plan(wanted, in_fullscreen, window.frame.size.height, live)
                &&& *final(self) == (MacWindow {
                    traffic_light: moved(wanted, in_fullscreen, live),
                    ..*old(self)
                })
            }),
    {
        self.traffic_light.set_traffic_light_position(position);
        self.move_traffic_light(window, live)
    }

    /// The window is about to enter AppKit's fullscreen. `opaque_titlebar` says whether the system
    /// is one where the titlebar has to be opaque then.
    pub fn window_will_enter_fullscreen(
        &mut self,
        window: WindowGeometry,
        default_size: Size,
        live: Option<TrafficLightFrames>,
        opaque_titlebar: bool,
    ) -> (plan: EnterFullscreenPlan)
        ensures
            old(self).well_formed() ==> final(self).well_formed(),
            plan == entering_plan(*old(self), live, opaque_titlebar),
            plan == (EnterFullscreenPlan {
                traffic_light: restore_plan(old(self).traffic_light, live),
                make_titlebar_opaque: opaque_titlebar,
            }),
            *final(self) == entering_fullscreen(*old(self), window, default_size),
    {
        self.fullscreen.restore_bounds = bounds_on_screen(
            window.frame,
            window.screen_frame,
            default_size,
        );
        EnterFullscreenPlan {
            traffic_light: self.traffic_light.restore_traffic_light(live),
            make_titlebar_opaque: opaque_titlebar,
        }
    }

    /// The window is about to leave AppKit's fullscreen. Says whether the titlebar becomes
    /// transparent again.
    pub fn window_will_exit_fullscreen(&self, opaque_titlebar: bool) -> (make_transparent: bool)
        ensures
            make_transparent == becomes_transparent_again(*self, opaque_titlebar),
    {
        opaque_titlebar && self.transparent_titlebar
    }

    /// The window was covered or uncovered.
    pub fn window_did_change_occlusion_state(
        &mut self,
        visible: bool,
        display_id: Option<u32>,
        window: WindowGeometry,
        live: Option<TrafficLightFrames>,
    ) -> (plan: OcclusionPlan)
        ensures
            old(self).well_formed() ==> final(self).well_formed(),
            (plan, *final(self)) == occlusion_told(
                *old(self),
                visible,
                display_id,
                window,
                live,
            ),
            plan == (OcclusionPlan {
                traffic_light: if visible {
                    move_plan(
                        old(self).traffic_light,
                        is_full_screen(window.style_mask),
                        window.frame.size.height,
                        live,
                    )
                } else {
                    TrafficLightPlan::Keep
                },
                frame_source: restart_plan(old(self).frames.source, pace_of(visible, display_id)),
            }),
            *final(self) == (MacWindow {
                traffic_light: if visible {
                    moved(old(self).traffic_light, is_full_screen(window.style_mask), live)
                } else {
                    old(self).traffic_light
                },
                frames: FrameState {
                    source: restarted(old(self).frames.source, pace_of(visible, display_id)),
                    ..old(self).frames
                },
                ..*old(self)
            }),
    {
        let traffic_light: TrafficLightPlan = if visible {
            self.move_traffic_light(window, live)
        } else {
            TrafficLightPlan::Keep
        };
        OcclusionPlan {
            traffic_light,
            frame_source: self.frames.start_display_link(visible, display_id),
        }
    }

    /// Toggles simple fullscreen, unless the window has been closed in the meantime; see
    /// [`FullscreenState::toggle_simple_fullscreen`].
    pub fn toggle_simple_fullscreen(&mut self, window: WindowGeometry) -> (plan: Option<
        SimpleFullscreenPlan,
    >)
        ensures
            old(self).well_formed() ==> final(self).well_formed(),
            plan == window_toggle_plan(*old(self), window),
            *final(self) == window_toggled(*old(self), window),
    {
        if self.closed {
            None
        } else {
            self.fullscreen.toggle_simple_fullscreen(window)
        }
    }

    /// Whether the window can be moved or changed by its titlebar: not in simple fullscreen.
    pub fn titlebar_is_active(&self) -> (result: bool)
        ensures
            result == acts_on_its_titlebar(*self),
            result == (self.fullscreen.simple is None),
    {
        !self.fullscreen.is_simple_fullscreen()
    }

    /// Takes a new background. If a blurred view is added, [`MacWindow::blurred_view_added`]
    /// follows.
    pub fn set_background_appearance(&mut self, appearance: WindowBackgroundAppearance) -> (plan:
        BackgroundPlan)
        ensures
            old(self).well_formed() ==> final(self).well_formed(),
            plan == background_plan(appearance, old(self).blurred_view),
            *final(self) == background_taken(*old(self), appearance),
            *final(self) == (MacWindow {
                background_appearance: appearance,
                blurred_view: match plan.blur {
                    BlurPlan::Remove { .. } => None,
                    _ => old(self).blurred_view,
                },
                ..*old(self)
            }),
    {
        self.background_appearance = appearance;
        let plan = plan_background(appearance, self.blurred_view);
        match plan.blur {
            BlurPlan::Remove { .. } => {
                self.blurred_view = None;
            },
            _ => {},
        }
        plan
    }

    /// A blurred view was added below the content.
    pub fn blurred_view_added(&mut self, blurred_view: u64)
        ensures
            old(self).well_formed() && old(self).background_appearance
                == WindowBackgroundAppearance::Blurred ==> final(self).well_formed(),
            *final(self) == blurred_with(*old(self), blurred_view),
            *final(self) == (MacWindow { blurred_view: Some(blurred_view), ..*old(self) }),
    {
        self.blurred_view = Some(blurred_view);
    }

    /// The view of the window got a frame of another size, or the same. If a callback is to be
    /// called, [`MacWindow::finish_resize`] follows.
    pub fn set_frame_size(&mut self, old_size: Size, new_size: Size) -> (plan: ResizePlan)
        ensures
            old(self).well_formed() ==> final(self).well_formed(),
            plan == resize_plan(*old(self), old_size, new_size),
            *final(self) == resizing(*old(self), old_size, new_size),
    {
        if sizes_agree(old_size, new_size) {
            ResizePlan { drawable_size: None, callback: None }
        } else {
            ResizePlan {
                drawable_size: Some(convert_size(new_size)),
                callback: self.callbacks.resize.take(),
            }
        }
    }

    /// The window came to a screen with another scale factor, or may have: the renderer follows
    /// the content and the application is told its size, whether or not the size changed. If a
    /// callback is to be called, [`MacWindow::finish_resize`] follows.
    pub fn update_scale_factor(&mut self, content_size: Size) -> (plan: ResizePlan)
        ensures
            old(self).well_formed() ==> final(self).well_formed(),
            plan == rescale_plan(*old(self), content_size),
            plan == (ResizePlan {
                drawable_size: Some(content_size),
                callback: old(self).callbacks.resize,
            }),
            *final(self) == size_being_told(*old(self)),
    {
        ResizePlan { drawable_size: Some(content_size), callback: self.callbacks.resize.take() }
    }

    /// The application has been told of the new size.
    pub fn finish_resize(&mut self, callback: u64)
        ensures
            old(self).well_formed() ==> final(self).well_formed(),
            *final(self) == resize_told(*old(self), callback),
    {
        self.callbacks.resize = Some(callback);
    }

    /// The window is being closed.
    pub fn close_window(&mut self) -> (plan: ClosePlan)
        ensures
            old(self).well_formed() ==> final(self).well_formed(),
            plan == close_plan(*old(self)),
            *final(self) == closing(*old(self)),
    {
        self.closed = true;
        let callback = self.callbacks.close.take();
        let simple = self.fullscreen.simple.take();
        ClosePlan { pop_presentation_options: simple.is_some(), callback }
    }

    /// The application lets go of the window.
    pub fn release(&mut self) -> (plan: ReleasePlan)
        ensures
            old(self).well_formed() ==> final(self).well_formed(),
            (plan, *final(self)) == released(*old(self)),
            plan == (ReleasePlan {
                drop_frame_source: old(self).frames.source != FrameSource::Absent,
                drop_input_handler: old(self).input_handler,
                sheet_parent: old(self).sheet_parent,
            }),
            *final(self) == (MacWindow {
                frames: FrameState { source: FrameSource::Absent, ..old(self).frames },
                input_handler: None,
                sheet_parent: None,
                ..*old(self)
            }),
    {
        let drop_frame_source: bool = match self.frames.source {
            FrameSource::Absent => false,
            _ => true,
        };
        self.frames.source = FrameSource::Absent;
        ReleasePlan {
            drop_frame_source,
            drop_input_handler: self.input_handler.take(),
            sheet_parent: self.sheet_parent.take(),
        }
    }
}

/// A view got a frame. AppKit does so too while it initializes the view, when there is no window
/// behind it yet: then nothing else happens.
pub fn view_frame_size_set(
    window: Option<&mut MacWindow>,
    old_size: Size,
    new_size: Size,
) -> (plan: ResizePlan)
    ensures
        match window {
            Some(window) => plan == resize_plan(*window, old_size, new_size) && *final(window)
                == resizing(*window, old_size, new_size),
            None => plan == (ResizePlan { drawable_size: None, callback: None }),
        },
{
    match window {
        Some(window) => window.set_frame_size(old_size, new_size),
        None => ResizePlan { drawable_size: None, callback: None },
    }
}

/// Whether the application asks for the user's attention: not for a window that has it.
pub fn request_attention(is_active: bool) -> (result: bool)
    ensures
        result == !is_active,
{
    !is_active
}

/// A window that has just been opened.
pub open spec fn opened_as(
    handle: u64,
    params: WindowParams,
    native_window: u64,
    native_view: u64,
    keyboard: KeyboardState,
) -> MacWindow {
    MacWindow {
        handle,
        native_window,
        native_view,
        blurred_view: None,
        background_appearance: WindowBackgroundAppearance::Opaque,
        cursor_style: CursorStyle::Arrow,
        frames: FrameState::initial(),
        callbacks: Callbacks::none(),
        input_handler: None,
        keyboard,
        pointer: PointerState::initial(),
        traffic_light: TrafficLight { position: params.traffic_light_position(), frames: None },
        transparent_titlebar: params.hides_titlebar(),
        app_owns_titlebar_drag: params.app_owns_titlebar_drag,
        fullscreen: FullscreenState { restore_bounds: empty_rect(), simple: None },
        closed: false,
        sheet_parent: None,
    }
}

/// The window when it has been attached to another one, or to none.
pub open spec fn attached_to(window: MacWindow, sheet_parent: Option<u64>) -> MacWindow {
    MacWindow { sheet_parent, ..window }
}

/// The window when a blurred view was added to it.
pub open spec fn blurred_with(window: MacWindow, blurred_view: u64) -> MacWindow {
    MacWindow { blurred_view: Some(blurred_view), ..window }
}

/// The window when it wants its traffic lights elsewhere.
pub open spec fn light_wanted_at(window: MacWindow, position: Point) -> MacWindow {
    MacWindow {
        traffic_light: TrafficLight { position: Some(position), ..window.traffic_light },
        ..window
    }
}

/// What moving the traffic lights of the window comes to, and the window after that.
pub open spec fn light_moved(
    window: MacWindow,
    geometry: WindowGeometry,
    live: Option<TrafficLightFrames>,
) -> (TrafficLightPlan, MacWindow) {
    let in_fullscreen = is_full_screen(geometry.style_mask);
    let plan = move_plan(window.traffic_light, in_fullscreen, geometry.frame.size.height, live);
    let after = MacWindow {
        traffic_light: moved(window.traffic_light, in_fullscreen, live),
        ..window
    };
    (plan, after)
}

/// What happens when the window is covered or uncovered, and the window after that.
pub open spec fn occlusion_told(
    window: MacWindow,
    visible: bool,
    display_id: Option<u32>,
    geometry: WindowGeometry,
    live: Option<TrafficLightFrames>,
) -> (OcclusionPlan, MacWindow) {
    let in_fullscreen = is_full_screen(geometry.style_mask);
    let pace = pace_of(visible, display_id);
    let plan = OcclusionPlan {
        traffic_light: if visible {
            move_plan(window.traffic_light, in_fullscreen, geometry.frame.size.height, live)
        } else {
            TrafficLightPlan::Keep
        },
        frame_source: restart_plan(window.frames.source, pace),
    };
    let after = MacWindow {
        traffic_light: if visible {
            moved(window.traffic_light, in_fullscreen, live)
        } else {
            window.traffic_light
        },
        frames: FrameState { source: restarted(window.frames.source, pace), ..window.frames },
        ..window
    };
    (plan, after)
}

/// The window after it took a new background; the blurred view is added later.
pub open spec fn background_taken(
    window: MacWindow,
    appearance: WindowBackgroundAppearance,
) -> MacWindow {
    MacWindow {
        background_appearance: appearance,
        blurred_view: if background_plan(appearance, window.blurred_view).blur is Remove {
            None
        } else {
            window.blurred_view
        },
        ..window
    }
}

/// What is left to do when the application lets go of the window, and the window after that.
pub open spec fn released(window: MacWindow) -> (ReleasePlan, MacWindow) {
    let plan = ReleasePlan {
        drop_frame_source: window.frames.source != FrameSource::Absent,
        drop_input_handler: window.input_handler,
        sheet_parent: window.sheet_parent,
    };
    let after = MacWindow {
        frames: FrameState { source: FrameSource::Absent, ..window.frames },
        input_handler: None,
        sheet_parent: None,
        ..window
    };
    (plan, after)
}

/// What happens when the window is about to enter AppKit's fullscreen.
pub open spec fn entering_plan(
    window: MacWindow,
    live: Option<TrafficLightFrames>,
    opaque_titlebar: bool,
) -> EnterFullscreenPlan {
    EnterFullscreenPlan {
        traffic_light: restore_plan(window.traffic_light, live),
        make_titlebar_opaque: opaque_titlebar,
    }
}

/// Whether the window can be moved or changed by its titlebar.
pub open spec fn acts_on_its_titlebar(window: MacWindow) -> bool {
    window.fullscreen.simple is None
}

/// What happens when the window may have another scale factor.
pub open spec fn rescale_plan(window: MacWindow, content_size: Size) -> ResizePlan {
    ResizePlan { drawable_size: Some(content_size), callback: window.callbacks.resize }
}

/// The window while it is in AppKit's fullscreen: it remembers its bounds from before.
pub open spec fn entering_fullscreen(
    window: MacWindow,
    geometry: WindowGeometry,
    default_size: Size,
) -> MacWindow {
    MacWindow {
        traffic_light: TrafficLight { frames: None, ..window.traffic_light },
        fullscreen: FullscreenState {
            restore_bounds: window_bounds_of(geometry.frame, geometry.screen_frame, default_size),
            ..window.fullscreen
        },
        ..window
    }
}

/// What happens when the view of the window gets a frame: the renderer and the application follow
/// exactly if its size in single precision changes.
pub open spec fn resize_plan(window: MacWindow, old_size: Size, new_size: Size) -> ResizePlan {
    if same_size(old_size, new_size) {
        ResizePlan { drawable_size: None, callback: None }
    } else {
        ResizePlan {
            drawable_size: Some(single_size(new_size)),
            callback: window.callbacks.resize,
        }
    }
}

/// The window while its application is told its size.
pub open spec fn size_being_told(window: MacWindow) -> MacWindow {
    MacWindow { callbacks: Callbacks { resize: None, ..window.callbacks }, ..window }
}

/// The window while its application is told of a new size, if there is one.
pub open spec fn resizing(window: MacWindow, old_size: Size, new_size: Size) -> MacWindow {
    if same_size(old_size, new_size) {
        window
    } else {
        size_being_told(window)
    }
}

/// The window after its application was told of a new size.
pub open spec fn resize_told(window: MacWindow, callback: u64) -> MacWindow {
    MacWindow { callbacks: Callbacks { resize: Some(callback), ..window.callbacks }, ..window }
}

/// Whether the titlebar becomes transparent when the window leaves AppKit's fullscreen.
pub open spec fn becomes_transparent_again(window: MacWindow, opaque_titlebar: bool) -> bool {
    opaque_titlebar && window.transparent_titlebar
}

/// What toggling simple fullscreen comes to: nothing for a closed window.
pub open spec fn window_toggle_plan(
    window: MacWindow,
    geometry: WindowGeometry,
) -> Option<SimpleFullscreenPlan> {
    if window.closed {
        None
    } else {
        toggle_plan(window.fullscreen, geometry)
    }
}

/// The window after toggling simple fullscreen.
pub open spec fn window_toggled(window: MacWindow, geometry: WindowGeometry) -> MacWindow {
    if window.closed {
        window
    } else {
        MacWindow { fullscreen: toggled(window.fullscreen, geometry), ..window }
    }
}

/// What is left to do when the window is closed.
pub open spec fn close_plan(window: MacWindow) -> ClosePlan {
    ClosePlan {
        pop_presentation_options: window.fullscreen.simple is Some,
        callback: window.callbacks.close,
    }
}

/// The window after it was closed.
pub open spec fn closing(window: MacWindow) -> MacWindow {
    MacWindow {
        closed: true,
        callbacks: Callbacks { close: None, ..window.callbacks },
        fullscreen: FullscreenState { simple: None, ..window.fullscreen },
        ..window
    }
}

/// Closing a window for the second time does nothing, and a closed window does not enter simple
/// fullscreen any more.
pub proof fn closed_window_stays_closed(window: MacWindow, geometry: WindowGeometry)
    ensures
        close_plan(closing(window)) == (ClosePlan {
            pop_presentation_options: false,
            callback: None,
        }),
        closing(closing(window)) == closing(window),
        window_toggle_plan(closing(window), geometry) is None,
        window_toggled(closing(window), geometry) == closing(window),
{
}

/// A view whose size changes calls the resize callback once, if there is one, and the callback is
/// registered again afterwards; one whose size does not change calls nothing.
pub proof fn resizing_calls_the_callback_once(window: MacWindow, old_size: Size, new_size: Size)
    ensures
        ({
            let plan = resize_plan(window, old_size, new_size);
            let during = resizing(window, old_size, new_size);
            &&& (plan.drawable_size is Some) == !same_size(old_size, new_size)
            &&& plan.callback is Some <==> !same_size(old_size, new_size)
                && window.callbacks.resize is Some
            &&& plan.callback is Some ==> resize_plan(during, old_size, new_size).callback is None
            &&& match plan.callback {
                Some(callback) => resize_told(during, callback) == window,
                None => during == window,
            }
        }),
{
}

/// A window that may have another scale factor calls the resize callback once, if there is one,
/// and the callback is registered again afterwards.
pub proof fn rescaling_calls_the_callback_once(window: MacWindow)
    ensures
        size_being_told(window).callbacks.resize is None,
        match window.callbacks.resize {
            Some(callback) => resize_told(size_being_told(window), callback) == window,
            None => size_being_told(window) == window,
        },
{
}

/// In AppKit's fullscreen a window is restored to the bounds that it had before, whatever its
/// frame is now.
pub proof fn fullscreen_keeps_the_restorable_bounds(
    window: MacWindow,
    before: WindowGeometry,
    during: WindowGeometry,
    default_size: Size,
)
    requires
        is_full_screen(during.style_mask),
    ensures
        restorable_bounds(
            entering_fullscreen(window, before, default_size).fullscreen,
            during,
            default_size,
        ) == WindowBounds::Fullscreen(
            window_bounds_of(before.frame, before.screen_frame, default_size),
        ),
{
}

/// A window that has been in AppKit's fullscreen has its titlebar as it was before.
pub proof fn titlebar_survives_fullscreen(window: MacWindow, opaque_titlebar: bool)
    ensures
        ({
            let before = window.transparent_titlebar;
            let during = before && !opaque_titlebar;
            let after = during || becomes_transparent_again(window, opaque_titlebar);
            after == before
        }),
{
}

/// A window that is uncovered has its traffic lights moved and its frames paced by its display; one
/// that is covered keeps its traffic lights and draws no frames. Nothing else of it changes.
pub proof fn covered_windows_draw_no_frames(
    window: MacWindow,
    visible: bool,
    display_id: Option<u32>,
    geometry: WindowGeometry,
    live: TrafficLightFrames,
)
    ensures
        ({
            let (plan, after) = occlusion_told(window, visible, display_id, geometry, Some(live));
            let fullscreen = geometry.style_mask & 0x4000 == 0x4000;
            &&& !visible ==> plan.traffic_light == TrafficLightPlan::Keep && after.traffic_light
                == window.traffic_light
            &&& !visible ==> plan.frame_source.start is None && !(after.frames.source is Started)
            &&& visible && !fullscreen && window.traffic_light.position is Some
                ==> plan.traffic_light is Place && plan.traffic_light->Place_0.close
                == window.traffic_light.position->0
            &&& visible && fullscreen && window.traffic_light.position is Some
                && window.traffic_light.frames is Some ==> plan.traffic_light
                == TrafficLightPlan::Restore(window.traffic_light.frames->0)
            &&& visible ==> plan.frame_source.start == display_id
            &&& plan.frame_source.stop == (window.frames.source != FrameSource::Absent)
            &&& after == (MacWindow {
                traffic_light: after.traffic_light,
                frames: FrameState { source: after.frames.source, ..window.frames },
                ..window
            })
        }),
{
}

/// A window has the background that it was given, and no blurred view unless that is blurred;
/// nothing else of it changes.
pub proof fn windows_have_the_background_they_were_given(
    window: MacWindow,
    appearance: WindowBackgroundAppearance,
)
    ensures
        ({
            let after = background_taken(window, appearance);
            &&& after.background_appearance == appearance
            &&& appearance == WindowBackgroundAppearance::Blurred ==> after.blurred_view
                == window.blurred_view
            &&& appearance != WindowBackgroundAppearance::Blurred ==> after.blurred_view is None
            &&& after == (MacWindow {
                background_appearance: after.background_appearance,
                blurred_view: after.blurred_view,
                ..window
            })
        }),
{
}

/// A window that is closed is closed for good: its callback is called, if it has one, and not
/// again; the options of the application are restored exactly if it was in simple fullscreen. The
/// other callbacks and all else are left.
pub proof fn closing_tells_the_callback(window: MacWindow)
    ensures
        ({
            let plan = close_plan(window);
            let after = closing(window);
            &&& plan.callback == window.callbacks.close
            &&& plan.pop_presentation_options == (window.fullscreen.simple is Some)
            &&& after.closed
            &&& after.callbacks.close is None
            &&& after.fullscreen.simple is None
            &&& after.fullscreen.restore_bounds == window.fullscreen.restore_bounds
            &&& after == (MacWindow {
                closed: true,
                callbacks: Callbacks { close: None, ..window.callbacks },
                fullscreen: after.fullscreen,
                ..window
            })
        }),
{
}

/// A window that is let go of lets go of its frame source, if there is one, of its input handler
/// and of the window that it is attached to, each once; nothing else of it changes.
pub proof fn released_windows_let_go_once(window: MacWindow)
    ensures
        ({
            let (plan, after) = released(window);
            let (again, still) = released(after);
            &&& plan.drop_frame_source == (window.frames.source != FrameSource::Absent)
            &&& plan.drop_input_handler == window.input_handler
            &&& plan.sheet_parent == window.sheet_parent
            &&& !again.drop_frame_source && again.drop_input_handler is None && again.sheet_parent
                is None
            &&& still == after
            &&& after == (MacWindow {
                frames: FrameState { source: FrameSource::Absent, ..window.frames },
                input_handler: None,
                sheet_parent: None,
                ..window
            })
        }),
{
}

/// A window that enters AppKit's fullscreen has its traffic lights put back, if they were moved,
/// and remembers its bounds; its titlebar becomes opaque where the system wants that, and
/// transparent again afterwards if it was.
pub proof fn fullscreen_is_entered_with_the_traffic_lights_back(
    window: MacWindow,
    geometry: WindowGeometry,
    default_size: Size,
    live: TrafficLightFrames,
    opaque_titlebar: bool,
)
    ensures
        ({
            let plan = entering_plan(window, Some(live), opaque_titlebar);
            let after = entering_fullscreen(window, geometry, default_size);
            &&& plan.make_titlebar_opaque == opaque_titlebar
            &&& window.traffic_light.frames matches Some(frames) ==> plan.traffic_light
                == TrafficLightPlan::Restore(frames)
            &&& window.traffic_light.frames is None ==> plan.traffic_light
                == TrafficLightPlan::Keep
            &&& after.traffic_light.frames is None
            &&& after.traffic_light.position == window.traffic_light.position
            &&& after.fullscreen.simple == window.fullscreen.simple
            &&& after.fullscreen.restore_bounds == window_bounds_of(
                geometry.frame,
                geometry.screen_frame,
                default_size,
            )
            &&& becomes_transparent_again(window, opaque_titlebar) == (window.transparent_titlebar
                && opaque_titlebar)
            &&& after == (MacWindow {
                traffic_light: after.traffic_light,
                fullscreen: after.fullscreen,
                ..window
            })
        }),
{
}

/// A closed window does not toggle simple fullscreen and an open one does; the titlebar acts only
/// on a window that is not in it.
pub proof fn open_windows_toggle_simple_fullscreen(window: MacWindow, geometry: WindowGeometry)
    ensures
        window.closed ==> window_toggle_plan(window, geometry) is None && window_toggled(
            window,
            geometry,
        ) == window,
        !window.closed ==> {
            let after = window_toggled(window, geometry);
            &&& window_toggle_plan(window, geometry) == toggle_plan(window.fullscreen, geometry)
            &&& window_toggle_plan(window, geometry) is Some ==> acts_on_its_titlebar(window)
                != acts_on_its_titlebar(after)
            &&& window_toggle_plan(window, geometry) is None ==> after.fullscreen
                == window.fullscreen
            &&& after == (MacWindow { fullscreen: after.fullscreen, ..window })
        },
        acts_on_its_titlebar(window) == (window.fullscreen.simple is None),
{
}

/// The renderer follows a view to exactly its new size, and only if that is another one.
pub proof fn renderer_follows_the_view(window: MacWindow, old_size: Size, new_size: Size)
    requires
        is_everyday(old_size.width as int),
        is_everyday(old_size.height as int),
        is_everyday(new_size.width as int),
        is_everyday(new_size.height as int),
    ensures
        ({
            let plan = resize_plan(window, old_size, new_size);
            &&& old_size == new_size ==> plan.drawable_size is None && plan.callback is None
            &&& old_size != new_size ==> plan.drawable_size == Some(new_size) && plan.callback
                == window.callbacks.resize
            &&& old_size == new_size ==> resizing(window, old_size, new_size) == window
            &&& rescale_plan(window, new_size).drawable_size == Some(new_size)
            &&& rescale_plan(window, new_size).callback == window.callbacks.resize
        }),
{
}

/// A window that has just been opened is the one that was asked for: with its handle, its native
/// window and its view, with its traffic lights wanted where it wants them, and with its titlebar
/// dragged as it says. It is open, opaque, attached to nothing, not in fullscreen, has an arrow for
/// a cursor and calls nobody.
pub proof fn opened_windows_are_as_asked_for(
    handle: u64,
    params: WindowParams,
    native_window: u64,
    native_view: u64,
    keyboard: KeyboardState,
    parent: Option<u64>,
    blurred_view: u64,
)
    ensures
        ({
            let window = opened_as(handle, params, native_window, native_view, keyboard);
            &&& window.handle == handle
            &&& window.native_window == native_window && window.native_view == native_view
            &&& window.app_owns_titlebar_drag == params.app_owns_titlebar_drag
            &&& window.transparent_titlebar == (params.titlebar matches Some(titlebar)
                ==> titlebar.appears_transparent)
            &&& window.traffic_light.frames is None
            &&& params.titlebar is None ==> window.traffic_light.position is None
            &&& params.titlebar matches Some(titlebar) ==> window.traffic_light.position
                == titlebar.traffic_light_position
            &&& !window.closed
            &&& window.sheet_parent is None && window.input_handler is None
            &&& window.background_appearance == WindowBackgroundAppearance::Opaque
            &&& window.blurred_view is None
            &&& window.fullscreen.simple is None
            &&& window.cursor_style == CursorStyle::Arrow
            &&& window.callbacks == Callbacks::none()
            &&& window.pointer == PointerState::initial()
            &&& window.frames == FrameState::initial()
            &&& attached_to(window, parent).sheet_parent == parent
            &&& attached_to(attached_to(window, parent), None) == window
            &&& blurred_with(window, blurred_view).blurred_view == Some(blurred_view)
            &&& blurred_with(window, blurred_view) == (MacWindow {
                blurred_view: Some(blurred_view),
                ..window
            })
        }),
{
}

/// The traffic lights are placed below the top of the window, with the close button where the
/// window wants it, every time that they are moved and not in fullscreen; where they are restored
/// to stays the same once it is known. Nothing else of the window changes.
pub proof fn windows_place_their_traffic_lights(
    window: MacWindow,
    position: Point,
    geometry: WindowGeometry,
    live: TrafficLightFrames,
)
    requires
        geometry.style_mask & 0x4000 != 0x4000,
        everyday_point(position),
        is_everyday(geometry.frame.size.height as int),
        everyday_rect(live.close),
        everyday_rect(live.minimize),
    ensures
        ({
            let wanted = light_wanted_at(window, position);
            let (plan, after) = light_moved(wanted, geometry, Some(live));
            let layout = plan->Place_0;
            &&& plan is Place
            &&& layout.close == position
            &&& layout.titlebar.origin.y + layout.titlebar.size.height
                == geometry.frame.size.height
            &&& after.traffic_light.position == Some(position)
            &&& window.traffic_light.frames is Some ==> after.traffic_light.frames
                == window.traffic_light.frames
            &&& window.traffic_light.frames is None ==> after.traffic_light.frames == Some(live)
            &&& after == (MacWindow { traffic_light: after.traffic_light, ..window })
        }),
{
    titlebar_fits_the_buttons(
        position,
        window.traffic_light.frames,
        geometry.frame.size.height,
        live,
    );
}

/// In fullscreen, moving the traffic lights of a window puts them back where they were.
pub proof fn windows_in_fullscreen_put_their_traffic_lights_back(
    window: MacWindow,
    geometry: WindowGeometry,
    live: TrafficLightFrames,
)
    requires
        geometry.style_mask & 0x4000 == 0x4000,
        window.traffic_light.position is Some,
        window.traffic_light.frames is Some,
    ensures
        light_moved(window, geometry, Some(live)).0 == TrafficLightPlan::Restore(
            window.traffic_light.frames->0,
        ),
        light_moved(window, geometry, Some(live)).1.traffic_light.frames is None,
{
}

} // verus!
