//! The cursor over a window.

use vstd::prelude::*;

verus! {

#[derive(Clone, Copy, Debug, PartialEq, Eq, Structural)]
pub enum CursorStyle {
    Arrow,
    IBeam,
    Crosshair,
    ClosedHand,
    OpenHand,
    PointingHand,
    ResizeLeft,
    ResizeRight,
    ResizeLeftRight,
    ResizeUp,
    ResizeDown,
    ResizeUpDown,
    ResizeUpLeftDownRight,
    ResizeUpRightDownLeft,
    ResizeColumn,
    ResizeRow,
    IBeamCursorForVerticalLayout,
    OperationNotAllowed,
    DragLink,
    DragCopy,
    ContextualMenu,
}

/// The cursors that AppKit has, those without documentation included.
#[derive(Clone, Copy, Debug, PartialEq, Eq, Structural)]
pub enum NativeCursor {
    Arrow,
    IBeam,
    Crosshair,
    ClosedHand,
    OpenHand,
    PointingHand,
    ResizeLeftRight,
    ResizeUpDown,
    ResizeLeft,
    ResizeRight,
    ResizeUp,
    ResizeDown,
    WindowResizeNorthWestSouthEast,
    WindowResizeNorthEastSouthWest,
    IBeamForVerticalLayout,
    OperationNotAllowed,
    DragLink,
    DragCopy,
    ContextualMenu,
}

/// The cursor for a style. AppKit has none of its own for the edges of columns and rows.
pub open spec fn cursor_for(style: CursorStyle) -> NativeCursor {
    match style {
        CursorStyle::Arrow => NativeCursor::Arrow,
        CursorStyle::IBeam => NativeCursor::IBeam,
        CursorStyle::Crosshair => NativeCursor::Crosshair,
        CursorStyle::ClosedHand => NativeCursor::ClosedHand,
        CursorStyle::OpenHand => NativeCursor::OpenHand,
        CursorStyle::PointingHand => NativeCursor::PointingHand,
        CursorStyle::ResizeLeft => NativeCursor::ResizeLeft,
        CursorStyle::ResizeRight => NativeCursor::ResizeRight,
        CursorStyle::ResizeLeftRight | CursorStyle::ResizeColumn => NativeCursor::ResizeLeftRight,
        CursorStyle::ResizeUp => NativeCursor::ResizeUp,
        CursorStyle::ResizeDown => NativeCursor::ResizeDown,
        CursorStyle::ResizeUpDown | CursorStyle::ResizeRow => NativeCursor::ResizeUpDown,
        CursorStyle::ResizeUpLeftDownRight => NativeCursor::WindowResizeNorthWestSouthEast,
        CursorStyle::ResizeUpRightDownLeft => NativeCursor::WindowResizeNorthEastSouthWest,
        CursorStyle::IBeamCursorForVerticalLayout => NativeCursor::IBeamForVerticalLayout,
        CursorStyle::OperationNotAllowed => NativeCursor::OperationNotAllowed,
        CursorStyle::DragLink => NativeCursor::DragLink,
        CursorStyle::DragCopy => NativeCursor::DragCopy,
        CursorStyle::ContextualMenu => NativeCursor::ContextualMenu,
    }
}

/// The cursor that the view registers for its whole bounds.
pub fn reset_cursor_rects(style: CursorStyle) -> (cursor: NativeCursor)
    ensures
        cursor == cursor_for(style),
{
    match style {
        CursorStyle::Arrow => NativeCursor::Arrow,
        CursorStyle::IBeam => NativeCursor::IBeam,
        CursorStyle::Crosshair => NativeCursor::Crosshair,
        CursorStyle::ClosedHand => NativeCursor::ClosedHand,
        CursorStyle::OpenHand => NativeCursor::OpenHand,
        CursorStyle::PointingHand => NativeCursor::PointingHand,
        CursorStyle::ResizeLeft => NativeCursor::ResizeLeft,
        CursorStyle::ResizeRight => NativeCursor::ResizeRight,
        CursorStyle::ResizeLeftRight => NativeCursor::ResizeLeftRight,
        CursorStyle::ResizeUp => NativeCursor::ResizeUp,
        CursorStyle::ResizeDown => NativeCursor::ResizeDown,
        CursorStyle::ResizeUpDown => NativeCursor::ResizeUpDown,
        CursorStyle::ResizeUpLeftDownRight => NativeCursor::WindowResizeNorthWestSouthEast,
        CursorStyle::ResizeUpRightDownLeft => NativeCursor::WindowResizeNorthEastSouthWest,
        CursorStyle::ResizeColumn => NativeCursor::ResizeLeftRight,
        CursorStyle::ResizeRow => NativeCursor::ResizeUpDown,
        CursorStyle::IBeamCursorForVerticalLayout => NativeCursor::IBeamForVerticalLayout,
        CursorStyle::OperationNotAllowed => NativeCursor::OperationNotAllowed,
        CursorStyle::DragLink => NativeCursor::DragLink,
        CursorStyle::DragCopy => NativeCursor::DragCopy,
        CursorStyle::ContextualMenu => NativeCursor::ContextualMenu,
    }
}

/// The style after a new one was taken, and whether the view's cursor has to be registered anew.
pub open spec fn restyled(current: CursorStyle, style: CursorStyle) -> (CursorStyle, bool) {
    (style, current != style)
}

/// Takes a new style for the window. Says whether the view's cursor has to be registered anew.
pub fn set_cursor_style(current: &mut CursorStyle, style: CursorStyle) -> (invalidate: bool)
    ensures
        (*final(current), invalidate) == restyled(*old(current), style),
        *final(current) == style,
        invalidate == (*old(current) != style),
{
    if *current != style {
        *current = style;
        true
    } else {
        false
    }
}

/// Two styles look the same only if one is for the edges of columns or rows and the other for the
/// directions in which those are dragged.
pub proof fn cursors_tell_styles_apart(style: CursorStyle, other: CursorStyle)
    requires
        cursor_for(style) == cursor_for(other),
        style != CursorStyle::ResizeColumn && style != CursorStyle::ResizeRow,
        other != CursorStyle::ResizeColumn && other != CursorStyle::ResizeRow,
    ensures
        style == other,
        cursor_for(CursorStyle::ResizeColumn) == cursor_for(CursorStyle::ResizeLeftRight),
        cursor_for(CursorStyle::ResizeRow) == cursor_for(CursorStyle::ResizeUpDown),
{
}

/// The cursors for resizing point where the edge can be dragged to.
pub proof fn resize_cursors_point_along_the_drag()
    ensures
        cursor_for(CursorStyle::ResizeLeft) == NativeCursor::ResizeLeft,
        cursor_for(CursorStyle::ResizeRight) == NativeCursor::ResizeRight,
        cursor_for(CursorStyle::ResizeLeftRight) == NativeCursor::ResizeLeftRight,
        cursor_for(CursorStyle::ResizeUp) == NativeCursor::ResizeUp,
        cursor_for(CursorStyle::ResizeDown) == NativeCursor::ResizeDown,
        cursor_for(CursorStyle::ResizeUpDown) == NativeCursor::ResizeUpDown,
        cursor_for(CursorStyle::ResizeUpLeftDownRight)
            == NativeCursor::WindowResizeNorthWestSouthEast,
        cursor_for(CursorStyle::ResizeUpRightDownLeft)
            == NativeCursor::WindowResizeNorthEastSouthWest,
{
}

/// The cursors of the same name as their style.
pub proof fn other_cursors_are_named_like_their_style()
    ensures
        cursor_for(CursorStyle::Arrow) == NativeCursor::Arrow,
        cursor_for(CursorStyle::IBeam) == NativeCursor::IBeam,
        cursor_for(CursorStyle::IBeamCursorForVerticalLayout)
            == NativeCursor::IBeamForVerticalLayout,
        cursor_for(CursorStyle::Crosshair) == NativeCursor::Crosshair,
        cursor_for(CursorStyle::ClosedHand) == NativeCursor::ClosedHand,
        cursor_for(CursorStyle::OpenHand) == NativeCursor::OpenHand,
        cursor_for(CursorStyle::PointingHand) == NativeCursor::PointingHand,
        cursor_for(CursorStyle::OperationNotAllowed) == NativeCursor::OperationNotAllowed,
        cursor_for(CursorStyle::DragLink) == NativeCursor::DragLink,
        cursor_for(CursorStyle::DragCopy) == NativeCursor::DragCopy,
        cursor_for(CursorStyle::ContextualMenu) == NativeCursor::ContextualMenu,
{
}

/// The style that was set is the one that the window has, and the cursor is registered anew exactly
/// if that makes a difference: never for the second time in a row.
pub proof fn cursor_is_registered_when_it_changes(current: CursorStyle, style: CursorStyle)
    ensures
        restyled(current, style).0 == style,
        restyled(current, style).1 == (current != style),
        !restyled(restyled(current, style).0, style).1,
{
}

} // verus!
