//! Style masks, levels and behaviours of native windows.

use vstd::prelude::*;

verus! {

pub const STYLE_BORDERLESS: u64 = 0;

pub const STYLE_TITLED: u64 = 0x1;

pub const STYLE_CLOSABLE: u64 = 0x2;

pub const STYLE_MINIATURIZABLE: u64 = 0x4;

pub const STYLE_RESIZABLE: u64 = 0x8;

pub const STYLE_NONACTIVATING_PANEL: u64 = 0x80;

pub const STYLE_FULL_SCREEN: u64 = 0x4000;

pub const STYLE_FULL_SIZE_CONTENT_VIEW: u64 = 0x8000;

pub const LEVEL_NORMAL: i64 = 0;

pub const LEVEL_FLOATING: i64 = 3;

pub const LEVEL_POP_UP: i64 = 101;

pub const TRACKING_MOUSE_ENTERED_AND_EXITED: u64 = 0x01;

pub const TRACKING_MOUSE_MOVED: u64 = 0x02;

pub const TRACKING_ACTIVE_ALWAYS: u64 = 0x80;

pub const TRACKING_IN_VISIBLE_RECT: u64 = 0x200;

pub const ANIMATION_UTILITY_WINDOW: i64 = 4;

pub const BEHAVIOR_CAN_JOIN_ALL_SPACES: u64 = 0x1;

pub const BEHAVIOR_FULL_SCREEN_AUXILIARY: u64 = 0x100;

pub const VIEW_WIDTH_SIZABLE: u64 = 0x2;

pub const VIEW_HEIGHT_SIZABLE: u64 = 0x10;

/// Whether every bit of `flag` is set in `mask`.
pub fn style_contains(mask: u64, flag: u64) -> (result: bool)
    ensures
        result == (mask & flag == flag),
{
    mask & flag == flag
}

/// What a window is for.
#[derive(Clone, Copy, Debug, PartialEq, Eq, Structural)]
pub enum WindowKind {
    Normal,
    PopUp,
    Floating,
    Dialog,
    AnchoredPopup,
}

/// The native class of a window.
#[derive(Clone, Copy, Debug, PartialEq, Eq, Structural)]
pub enum WindowClass {
    Window,
    Panel,
}

impl WindowKind {
    /// Whether windows of this kind show up without becoming active.
    pub open spec fn is_popup(self) -> bool {
        self == WindowKind::PopUp || self == WindowKind::AnchoredPopup
    }
}

/// The class of windows of a kind: all but normal windows are panels.
pub fn window_class(kind: WindowKind) -> (class: WindowClass)
    ensures
        class == if kind == WindowKind::Normal {
            WindowClass::Window
        } else {
            WindowClass::Panel
        },
{
    match kind {
        WindowKind::Normal => WindowClass::Window,
        _ => WindowClass::Panel,
    }
}

/// `flag` if `set`, else no bit.
pub open spec fn flag_if(set: bool, flag: u64) -> u64 {
    if set {
        flag
    } else {
        0
    }
}

fn bits_if(set: bool, flag: u64) -> (bits: u64)
    ensures
        bits == flag_if(set, flag),
{
    if set {
        flag
    } else {
        0
    }
}

/// The style of a new window. `titlebar` says whether its titlebar is transparent, if it has one.
pub open spec fn style_for(
    titlebar: Option<bool>,
    is_resizable: bool,
    is_minimizable: bool,
    kind: WindowKind,
) -> u64 {
    flag_if(kind.is_popup(), STYLE_NONACTIVATING_PANEL) | match titlebar {
        Some(transparent) => STYLE_CLOSABLE | STYLE_TITLED | flag_if(is_resizable, STYLE_RESIZABLE)
            | flag_if(is_minimizable, STYLE_MINIATURIZABLE) | flag_if(
            transparent,
            STYLE_FULL_SIZE_CONTENT_VIEW,
        ),
        None => STYLE_TITLED | STYLE_FULL_SIZE_CONTENT_VIEW,
    }
}

/// Computes [`style_for`].
pub fn style_mask(
    titlebar: Option<bool>,
    is_resizable: bool,
    is_minimizable: bool,
    kind: WindowKind,
) -> (mask: u64)
    ensures
        mask == style_for(titlebar, is_resizable, is_minimizable, kind),
{
    let is_popup: bool = match kind {
        WindowKind::PopUp => true,
        WindowKind::AnchoredPopup => true,
        _ => false,
    };
    let mask: u64 = match titlebar {
        Some(transparent) => STYLE_CLOSABLE | STYLE_TITLED | bits_if(is_resizable, STYLE_RESIZABLE)
            | bits_if(is_minimizable, STYLE_MINIATURIZABLE) | bits_if(
            transparent,
            STYLE_FULL_SIZE_CONTENT_VIEW,
        ),
        None => STYLE_TITLED | STYLE_FULL_SIZE_CONTENT_VIEW,
    };
    bits_if(is_popup, STYLE_NONACTIVATING_PANEL) | mask
}

/// Whether every bit of `flag` is set in `mask`.
pub open spec fn has_style(mask: u64, flag: u64) -> bool {
    mask & flag == flag
}

/// The style of a new window means what was asked for: it can be resized, minimized and closed by
/// its titlebar exactly as asked, its content reaches under the titlebar exactly if that is
/// transparent or missing, it takes no activation exactly if it is a pop-up, and it is not in
/// fullscreen.
pub proof fn style_means_what_was_asked(
    titlebar: Option<bool>,
    is_resizable: bool,
    is_minimizable: bool,
    kind: WindowKind,
)
    ensures
        ({
            let mask = style_for(titlebar, is_resizable, is_minimizable, kind);
            &&& has_style(mask, STYLE_TITLED)
            &&& has_style(mask, STYLE_CLOSABLE) == (titlebar is Some)
            &&& has_style(mask, STYLE_RESIZABLE) == (titlebar is Some && is_resizable)
            &&& has_style(mask, STYLE_MINIATURIZABLE) == (titlebar is Some && is_minimizable)
            &&& has_style(mask, STYLE_FULL_SIZE_CONTENT_VIEW) == (titlebar != Some(false))
            &&& has_style(mask, STYLE_NONACTIVATING_PANEL) == kind.is_popup()
            &&& has_style(mask, 0x80) == (kind == WindowKind::PopUp || kind
                == WindowKind::AnchoredPopup)
            &&& !has_style(mask, STYLE_FULL_SCREEN)
            &&& mask & !0x808fu64 == 0
        }),
{
    let popup = kind.is_popup();
    let transparent = titlebar == Some(true);
    lemma_titled_style(popup, is_resizable, is_minimizable, transparent);
    lemma_untitled_style(popup);
}

proof fn lemma_titled_style(popup: bool, resizable: bool, minimizable: bool, transparent: bool)
    ensures
        ({
            let mask = flag_if(popup, 0x80) | (0x2u64 | 0x1u64 | flag_if(resizable, 0x8) | flag_if(
                minimizable,
                0x4,
            ) | flag_if(transparent, 0x8000));
            &&& mask & 0x1 == 0x1
            &&& mask & 0x2 == 0x2
            &&& (mask & 0x8 == 0x8) == resizable
            &&& (mask & 0x4 == 0x4) == minimizable
            &&& (mask & 0x8000 == 0x8000) == transparent
            &&& (mask & 0x80 == 0x80) == popup
            &&& mask & 0x4000 != 0x4000
            &&& mask & !0x808fu64 == 0
        }),
{
    assert({
        let mask: u64 = (if popup { 0x80u64 } else { 0 }) | (0x2u64 | 0x1u64 | (if resizable {
            0x8u64
        } else {
            0
        }) | (if minimizable { 0x4u64 } else { 0 }) | (if transparent { 0x8000u64 } else { 0 }));
        mask & 0x1 == 0x1 && mask & 0x2 == 0x2 && (mask & 0x8 == 0x8) == resizable && (mask & 0x4
            == 0x4) == minimizable && (mask & 0x8000 == 0x8000) == transparent && (mask & 0x80
            == 0x80) == popup && mask & 0x4000 != 0x4000 && mask & !0x808fu64 == 0
    }) by (bit_vector);
}

proof fn lemma_untitled_style(popup: bool)
    ensures
        ({
            let mask = flag_if(popup, 0x80) | (0x1u64 | 0x8000u64);
            &&& mask & 0x1 == 0x1
            &&& mask & 0x2 != 0x2
            &&& mask & 0x8 != 0x8
            &&& mask & 0x4 != 0x4
            &&& mask & 0x8000 == 0x8000
            &&& (mask & 0x80 == 0x80) == popup
            &&& mask & 0x4000 != 0x4000
            &&& mask & !0x808fu64 == 0
        }),
{
    assert({
        let mask: u64 = (if popup { 0x80u64 } else { 0 }) | (0x1u64 | 0x8000u64);
        mask & 0x1 == 0x1 && mask & 0x2 != 0x2 && mask & 0x8 != 0x8 && mask & 0x4 != 0x4 && mask
            & 0x8000 == 0x8000 && (mask & 0x80 == 0x80) == popup && mask & 0x4000 != 0x4000 && mask
            & !0x808fu64 == 0
    }) by (bit_vector);
}

} // verus!
