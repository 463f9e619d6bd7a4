//! The titlebar and the background of a window.

use vstd::prelude::*;

use crate::geometry::{empty_rect, Point, Rect, Size};
use crate::strings::{objc_string, objc_text, same_text};

verus! {

/// What a double click on the titlebar does.
#[derive(Clone, Copy, Debug, PartialEq, Eq, Structural)]
pub enum TitlebarAction {
    Nothing,
    Minimize,
    Zoom,
}

/// What is behind the content of a window.
#[derive(Clone, Copy, Debug, PartialEq, Eq, Structural)]
pub enum WindowBackgroundAppearance {
    Opaque,
    Transparent,
    Blurred,
}

/// What becomes of the view that blurs what is behind a window.
#[derive(Clone, Copy, Debug, PartialEq, Eq, Structural)]
pub enum BlurPlan {
    Keep,
    /// Add a blurred view below the content.
    Add,
    Remove { blurred_view: u64 },
}

/// How a window changes with its background.
#[derive(Clone, Copy, Debug, PartialEq, Eq, Structural)]
pub struct BackgroundPlan {
    /// The renderer draws what is transparent as such.
    pub renderer_transparent: bool,
    pub opaque: bool,
    /// The opacity of the black background colour, in ten-thousandths. A clear colour would break
    /// the shadow of the window.
    pub alpha: u32,
    pub blur: BlurPlan,
}

/// A version of the system.
#[derive(Clone, Copy, Debug, PartialEq, Eq, Structural)]
pub struct SystemVersion {
    pub major: i64,
    pub minor: i64,
    pub patch: i64,
}

/// The action for a setting of the user. "Fill" has no documented counterpart and zooms, as does
/// everything that is not known here.
pub open spec fn action_for(
    setting: Seq<char>,
    is_resizable: bool,
    is_minimizable: bool,
) -> TitlebarAction {
    if setting == "None"@ {
        TitlebarAction::Nothing
    } else if setting == "Minimize"@ {
        if is_minimizable {
            TitlebarAction::Minimize
        } else {
            TitlebarAction::Nothing
        }
    } else if is_resizable {
        TitlebarAction::Zoom
    } else {
        TitlebarAction::Nothing
    }
}

/// Reads a setting; see [`action_for`].
pub fn double_click_action(setting: &str, is_resizable: bool, is_minimizable: bool) -> (action:
    TitlebarAction)
    ensures
        action == action_for(setting@, is_resizable, is_minimizable),
{
    if same_text(setting, "None") {
        TitlebarAction::Nothing
    } else if same_text(setting, "Minimize") {
        if is_minimizable {
            TitlebarAction::Minimize
        } else {
            TitlebarAction::Nothing
        }
    } else if is_resizable {
        TitlebarAction::Zoom
    } else {
        TitlebarAction::Nothing
    }
}

/// What a double click does to a window that may have been closed.
pub open spec fn followed_up(
    closed: bool,
    setting: Seq<char>,
    is_resizable: bool,
    is_minimizable: bool,
) -> TitlebarAction {
    if closed {
        TitlebarAction::Nothing
    } else {
        action_for(setting, is_resizable, is_minimizable)
    }
}

/// What a double click on the titlebar does, when it is followed up: nothing to a window that has
/// been closed in the meantime. `setting` is the global setting in UTF-8, if it is set.
pub fn follow_up_double_click(
    closed: bool,
    setting: Option<&[u8]>,
    is_resizable: bool,
    is_minimizable: bool,
) -> (action: TitlebarAction)
    ensures
        action == followed_up(closed, objc_text(setting), is_resizable, is_minimizable),
        action == if closed {
            TitlebarAction::Nothing
        } else {
            action_for(objc_text(setting), is_resizable, is_minimizable)
        },
{
    if closed {
        TitlebarAction::Nothing
    } else {
        double_click_action(objc_string(setting).as_str(), is_resizable, is_minimizable)
    }
}

/// How a window changes when its background becomes `appearance`.
pub open spec fn background_plan(
    appearance: WindowBackgroundAppearance,
    blurred_view: Option<u64>,
) -> BackgroundPlan {
    BackgroundPlan {
        renderer_transparent: appearance != WindowBackgroundAppearance::Opaque,
        opaque: appearance == WindowBackgroundAppearance::Opaque,
        alpha: if appearance == WindowBackgroundAppearance::Opaque {
            10_000
        } else {
            1
        },
        blur: match (appearance, blurred_view) {
            (WindowBackgroundAppearance::Blurred, None) => BlurPlan::Add,
            (WindowBackgroundAppearance::Blurred, Some(_)) => BlurPlan::Keep,
            (_, Some(blurred_view)) => BlurPlan::Remove { blurred_view },
            (_, None) => BlurPlan::Keep,
        },
    }
}

/// Computes [`background_plan`].
pub fn plan_background(
    appearance: WindowBackgroundAppearance,
    blurred_view: Option<u64>,
) -> (plan: BackgroundPlan)
    ensures
        plan == background_plan(appearance, blurred_view),
{
    let opaque: bool = match appearance {
        WindowBackgroundAppearance::Opaque => true,
        _ => false,
    };
    BackgroundPlan {
        renderer_transparent: !opaque,
        opaque,
        alpha: if opaque {
            10_000
        } else {
            1
        },
        blur: match (appearance, blurred_view) {
            (WindowBackgroundAppearance::Blurred, None) => BlurPlan::Add,
            (WindowBackgroundAppearance::Blurred, Some(_)) => BlurPlan::Keep,
            (_, Some(blurred_view)) => BlurPlan::Remove { blurred_view },
            (_, None) => BlurPlan::Keep,
        },
    }
}

/// The first version of the system whose fullscreen windows must not have a transparent titlebar.
pub open spec fn fullscreen_titlebar_version() -> SystemVersion {
    SystemVersion { major: 15, minor: 3, patch: 0 }
}

/// Gives [`fullscreen_titlebar_version`], for the system to be compared with.
pub fn opaque_fullscreen_titlebar_since() -> (version: SystemVersion)
    ensures
        version == fullscreen_titlebar_version(),
{
    SystemVersion { major: 15, minor: 3, patch: 0 }
}

/// What an application claims of its view: all of it if it drags its windows itself, else nothing.
pub open spec fn claimed_rect(app_owns_titlebar_drag: bool, view_bounds: Rect) -> Rect {
    if app_owns_titlebar_drag {
        view_bounds
    } else {
        empty_rect()
    }
}

/// The part of the view that AppKit is to treat as the application's own titlebar content, rather
/// than as a handle to move the window by. An application that drags its windows itself claims the
/// whole view, and with it clicks that are not held back to see if a second one follows.
pub fn opaque_rect_for_window_move(app_owns_titlebar_drag: bool, view_bounds: Rect) -> (rect: Rect)
    ensures
        rect == claimed_rect(app_owns_titlebar_drag, view_bounds),
        rect == if app_owns_titlebar_drag {
            view_bounds
        } else {
            empty_rect()
        },
{
    if app_owns_titlebar_drag {
        view_bounds
    } else {
        Rect { origin: Point { x: 0, y: 0 }, size: Size { width: 0, height: 0 } }
    }
}

/// A frame without height.
pub open spec fn collapsed(frame: Rect) -> Rect {
    Rect { origin: frame.origin, size: Size { width: frame.size.width, height: 0 } }
}

/// The frame of the native tab bar, which is hidden and takes no room.
pub fn collapsed_tab_bar(frame: Rect) -> (result: Rect)
    ensures
        result == collapsed(frame),
        result == (Rect {
            origin: frame.origin,
            size: Size { width: frame.size.width, height: 0 },
        }),
{
    Rect { origin: frame.origin, size: Size { width: frame.size.width, height: 0 } }
}

/// The blurred view after a plan was carried out, if `added` is the view that was added.
pub open spec fn blurred_view_after(
    blurred_view: Option<u64>,
    plan: BlurPlan,
    added: u64,
) -> Option<u64> {
    match plan {
        BlurPlan::Keep => blurred_view,
        BlurPlan::Add => Some(added),
        BlurPlan::Remove { .. } => None,
    }
}

/// A window has a blurred view exactly if its background is blurred, whatever it was before.
pub proof fn only_blurred_windows_have_a_blurred_view(
    appearance: WindowBackgroundAppearance,
    blurred_view: Option<u64>,
    added: u64,
)
    ensures
        ({
            let plan = background_plan(appearance, blurred_view).blur;
            let after = blurred_view_after(blurred_view, plan, added);
            &&& (after is Some) == (appearance == WindowBackgroundAppearance::Blurred)
            &&& background_plan(appearance, after).blur == BlurPlan::Keep
        }),
{
}

/// A double click never minimizes a window that cannot be minimized, nor zooms one that cannot be
/// resized.
pub proof fn double_click_respects_the_window(
    setting: Seq<char>,
    is_resizable: bool,
    is_minimizable: bool,
)
    ensures
        action_for(setting, is_resizable, is_minimizable) == TitlebarAction::Minimize
            ==> is_minimizable,
        action_for(setting, is_resizable, is_minimizable) == TitlebarAction::Zoom ==> is_resizable,
{
}

/// A double click on the titlebar of an open window minimizes it exactly if the user chose so and
/// the window can be minimized; it zooms the window exactly if the user chose neither that nor
/// nothing and the window can be resized. A closed window is left alone.
pub proof fn double_click_does_what_the_user_chose(
    setting: Seq<char>,
    is_resizable: bool,
    is_minimizable: bool,
)
    ensures
        ({
            let action = followed_up(false, setting, is_resizable, is_minimizable);
            &&& action == action_for(setting, is_resizable, is_minimizable)
            &&& action == TitlebarAction::Minimize <==> setting == "Minimize"@ && is_minimizable
            &&& action == TitlebarAction::Zoom <==> setting != "Minimize"@ && setting != "None"@
                && is_resizable
        }),
        followed_up(true, setting, is_resizable, is_minimizable) == TitlebarAction::Nothing,
{
    reveal_strlit("Minimize");
    reveal_strlit("None");
    assert("Minimize"@.len() != "None"@.len());
}

/// A window draws what is transparent as such, and is not opaque, exactly if its background is not
/// opaque; its colour is then nearly, but not quite, clear. A blurred view is added only to a
/// blurred window without one, and the one that is removed is the one that is there.
pub proof fn background_is_as_asked_for(
    appearance: WindowBackgroundAppearance,
    blurred_view: Option<u64>,
)
    ensures
        ({
            let plan = background_plan(appearance, blurred_view);
            let opaque = appearance == WindowBackgroundAppearance::Opaque;
            let blurred = appearance == WindowBackgroundAppearance::Blurred;
            &&& plan.opaque == opaque
            &&& plan.renderer_transparent == !opaque
            &&& opaque ==> plan.alpha == 10_000
            &&& !opaque ==> plan.alpha == 1
            &&& plan.blur == BlurPlan::Add <==> blurred && blurred_view is None
            &&& plan.blur is Remove <==> !blurred && blurred_view is Some
            &&& plan.blur is Remove ==> plan.blur->blurred_view == blurred_view->0
        }),
{
}

/// An application that drags its windows itself claims all of its view, another nothing.
pub proof fn view_is_claimed_for_dragging(view_bounds: Rect)
    ensures
        claimed_rect(true, view_bounds) == view_bounds,
        claimed_rect(false, view_bounds).size == (Size { width: 0, height: 0 }),
        claimed_rect(false, view_bounds).origin == (Point { x: 0, y: 0 }),
{
}

/// The native tab bar stays where it is, as wide as it is, and takes no height.
pub proof fn tab_bar_takes_no_height(frame: Rect)
    ensures
        collapsed(frame).origin == frame.origin,
        collapsed(frame).size.width == frame.size.width,
        collapsed(frame).size.height == 0,
{
}

/// The titlebar is opaque in fullscreen since macOS 15.3.
pub proof fn titlebars_are_opaque_in_fullscreen_since_sequoia()
    ensures
        ({
            let version = fullscreen_titlebar_version();
            version.major == 15 && version.minor == 3 && version.patch == 0
        }),
{
}

} // verus!
