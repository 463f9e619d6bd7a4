//! The Objective-C classes behind windows and views: which message each of them answers, and with
//! what.

use vstd::prelude::*;

verus! {

/// The classes of this library.
#[derive(Clone, Copy, Debug, PartialEq, Eq, Structural)]
pub enum NativeClass {
    Window,
    Panel,
    View,
    BlurredView,
}

/// A message that one of the classes answers.
#[derive(Clone, Copy, Debug, PartialEq, Eq, Structural)]
pub enum Selector {
    Dealloc,
    PerformKeyEquivalent,
    KeyDown,
    KeyUp,
    MouseDown,
    MouseUp,
    RightMouseDown,
    RightMouseUp,
    OtherMouseDown,
    OtherMouseUp,
    MouseMoved,
    ResetCursorRects,
    PressureChangeWithEvent,
    MouseExited,
    MagnifyWithEvent,
    MouseDragged,
    RightMouseDragged,
    OtherMouseDragged,
    ScrollWheel,
    SwipeWithEvent,
    FlagsChanged,
    MakeBackingLayer,
    ViewDidChangeBackingProperties,
    SetFrameSize,
    DisplayLayer,
    ValidAttributesForMarkedText,
    HasMarkedText,
    MarkedRange,
    SelectedRange,
    FirstRectForCharacterRange,
    InsertText,
    SetMarkedText,
    UnmarkText,
    AttributedSubstringForProposedRange,
    ViewDidChangeEffectiveAppearance,
    DoCommandBySelector,
    AcceptsFirstMouse,
    OpaqueRectForWindowMoveWhenInTitlebar,
    CharacterIndexForPoint,
    CanBecomeMainWindow,
    CanBecomeKeyWindow,
    WindowDidResize,
    WindowDidChangeOcclusionState,
    WindowWillEnterFullScreen,
    WindowWillExitFullScreen,
    WindowDidExitFullScreen,
    WindowDidMove,
    WindowDidChangeScreen,
    WindowDidBecomeKey,
    WindowDidResignKey,
    WindowShouldClose,
    Close,
    DraggingEntered,
    DraggingUpdated,
    DraggingExited,
    PerformDragOperation,
    ConcludeDragOperation,
    DraggingSessionSourceOperationMask,
    DraggingSessionEnded,
    AddTitlebarAccessoryViewController,
    MoveTabToNewWindow,
    MergeAllWindows,
    SelectNextTab,
    SelectPreviousTab,
    ToggleTabBar,
    InitWithFrame,
    UpdateLayer,
}

/// What answers a message.
#[derive(Clone, Copy, Debug, PartialEq, Eq, Structural)]
pub enum Handler {
    DeallocWindow,
    DeallocPanel,
    DeallocView,
    Yes,
    WindowDidResize,
    WindowDidChangeOcclusionState,
    WindowWillEnterFullScreen,
    WindowWillExitFullScreen,
    WindowDidExitFullScreen,
    WindowDidMove,
    WindowDidChangeScreen,
    WindowDidChangeKeyStatus,
    WindowShouldClose,
    CloseWindow,
    DraggingEntered,
    DraggingUpdated,
    DraggingExited,
    PerformDragOperation,
    ConcludeDragOperation,
    DraggingSessionSourceOperationMask,
    DraggingSessionEnded,
    AddTitlebarAccessoryViewController,
    MoveTabToNewWindow,
    MergeAllWindows,
    SelectNextTab,
    SelectPreviousTab,
    ToggleTabBar,
    HandleKeyEquivalent,
    HandleKeyDown,
    HandleKeyUp,
    HandleViewEvent,
    ResetCursorRects,
    MakeBackingLayer,
    ViewDidChangeBackingProperties,
    SetFrameSize,
    DisplayLayer,
    ValidAttributesForMarkedText,
    HasMarkedText,
    MarkedRange,
    SelectedRange,
    FirstRectForCharacterRange,
    InsertText,
    SetMarkedText,
    UnmarkText,
    AttributedSubstringForProposedRange,
    ViewDidChangeEffectiveAppearance,
    DoCommandBySelector,
    AcceptsFirstMouse,
    OpaqueRectForWindowMoveWhenInTitlebar,
    CharacterIndexForPoint,
    BlurredViewInitWithFrame,
    BlurredViewUpdateLayer,
}

/// A method of a class.
#[derive(Clone, Copy, Debug, PartialEq, Eq, Structural)]
pub struct Method {
    pub selector: Selector,
    pub handler: Handler,
}

/// The name of the instance variable that holds the state of a window.
pub fn window_state_variable() -> (name: &'static str)
    ensures
        name@ == "windowState"@,
{
    "windowState"
}

/// The name of a class.
pub open spec fn class_name_of(class: NativeClass) -> Seq<char> {
    match class {
        NativeClass::Window => "GPUIWindow"@,
        NativeClass::Panel => "GPUIPanel"@,
        NativeClass::View => "GPUIView"@,
        NativeClass::BlurredView => "BlurredView"@,
    }
}

/// The name of the class that a class extends.
pub open spec fn superclass_of(class: NativeClass) -> Seq<char> {
    match class {
        NativeClass::Window => "NSWindow"@,
        NativeClass::Panel => "NSPanel"@,
        NativeClass::View => "NSView"@,
        NativeClass::BlurredView => "NSVisualEffectView"@,
    }
}

/// Gives [`class_name_of`].
pub fn class_name(class: NativeClass) -> (name: &'static str)
    ensures
        name@ == class_name_of(class),
        name@ == match class {
            NativeClass::Window => "GPUIWindow"@,
            NativeClass::Panel => "GPUIPanel"@,
            NativeClass::View => "GPUIView"@,
            NativeClass::BlurredView => "BlurredView"@,
        },
{
    match class {
        NativeClass::Window => "GPUIWindow",
        NativeClass::Panel => "GPUIPanel",
        NativeClass::View => "GPUIView",
        NativeClass::BlurredView => "BlurredView",
    }
}

/// The name of the AppKit class that a class extends.
pub fn superclass_name(class: NativeClass) -> (name: &'static str)
    ensures
        name@ == superclass_of(class),
        name@ == match class {
            NativeClass::Window => "NSWindow"@,
            NativeClass::Panel => "NSPanel"@,
            NativeClass::View => "NSView"@,
            NativeClass::BlurredView => "NSVisualEffectView"@,
        },
{
    match class {
        NativeClass::Window => "NSWindow",
        NativeClass::Panel => "NSPanel",
        NativeClass::View => "NSView",
        NativeClass::BlurredView => "NSVisualEffectView",
    }
}

/// Whether objects of a class hold the state of a window.
pub fn has_window_state(class: NativeClass) -> (result: bool)
    ensures
        result == (class != NativeClass::BlurredView),
{
    match class {
        NativeClass::BlurredView => false,
        _ => true,
    }
}

/// The names of the protocols that a class conforms to.
pub open spec fn protocols_of(class: NativeClass) -> Seq<Seq<char>> {
    match class {
        NativeClass::Window | NativeClass::Panel => seq!["NSDraggingSource"@],
        NativeClass::View => seq!["CALayerDelegate"@, "NSTextInputClient"@],
        NativeClass::BlurredView => Seq::empty(),
    }
}

/// Lists the names of the protocols that a class conforms to.
pub fn class_protocols(class: NativeClass) -> (protocols: Vec<&'static str>)
    ensures
        protocols@.map_values(|name: &'static str| name@) == protocols_of(class),
{
    let mut protocols: Vec<&'static str> = Vec::new();
    match class {
        NativeClass::Window | NativeClass::Panel => {
            protocols.push("NSDraggingSource");
        },
        NativeClass::View => {
            protocols.push("CALayerDelegate");
            protocols.push("NSTextInputClient");
        },
        NativeClass::BlurredView => {},
    }
    assert(protocols@.map_values(|name: &'static str| name@) =~= protocols_of(class));
    protocols
}

/// The name of a selector.
pub open spec fn name_of(selector: Selector) -> Seq<char> {
    match selector {
        Selector::Dealloc => "dealloc"@,
        Selector::PerformKeyEquivalent => "performKeyEquivalent:"@,
        Selector::KeyDown => "keyDown:"@,
        Selector::KeyUp => "keyUp:"@,
        Selector::MouseDown => "mouseDown:"@,
        Selector::MouseUp => "mouseUp:"@,
        Selector::RightMouseDown => "rightMouseDown:"@,
        Selector::RightMouseUp => "rightMouseUp:"@,
        Selector::OtherMouseDown => "otherMouseDown:"@,
        Selector::OtherMouseUp => "otherMouseUp:"@,
        Selector::MouseMoved => "mouseMoved:"@,
        Selector::ResetCursorRects => "resetCursorRects"@,
        Selector::PressureChangeWithEvent => "pressureChangeWithEvent:"@,
        Selector::MouseExited => "mouseExited:"@,
        Selector::MagnifyWithEvent => "magnifyWithEvent:"@,
        Selector::MouseDragged => "mouseDragged:"@,
        Selector::RightMouseDragged => "rightMouseDragged:"@,
        Selector::OtherMouseDragged => "otherMouseDragged:"@,
        Selector::ScrollWheel => "scrollWheel:"@,
        Selector::SwipeWithEvent => "swipeWithEvent:"@,
        Selector::FlagsChanged => "flagsChanged:"@,
        Selector::MakeBackingLayer => "makeBackingLayer"@,
        Selector::ViewDidChangeBackingProperties => "viewDidChangeBackingProperties"@,
        Selector::SetFrameSize => "setFrameSize:"@,
        Selector::DisplayLayer => "displayLayer:"@,
        Selector::ValidAttributesForMarkedText => "validAttributesForMarkedText"@,
        Selector::HasMarkedText => "hasMarkedText"@,
        Selector::MarkedRange => "markedRange"@,
        Selector::SelectedRange => "selectedRange"@,
        Selector::FirstRectForCharacterRange => "firstRectForCharacterRange:actualRange:"@,
        Selector::InsertText => "insertText:replacementRange:"@,
        Selector::SetMarkedText => "setMarkedText:selectedRange:replacementRange:"@,
        Selector::UnmarkText => "unmarkText"@,
        Selector::AttributedSubstringForProposedRange => "attributedSubstringForProposedRange:actualRange:"@,
        Selector::ViewDidChangeEffectiveAppearance => "viewDidChangeEffectiveAppearance"@,
        Selector::DoCommandBySelector => "doCommandBySelector:"@,
        Selector::AcceptsFirstMouse => "acceptsFirstMouse:"@,
        Selector::OpaqueRectForWindowMoveWhenInTitlebar => "_opaqueRectForWindowMoveWhenInTitlebar"@,
        Selector::CharacterIndexForPoint => "characterIndexForPoint:"@,
        Selector::CanBecomeMainWindow => "canBecomeMainWindow"@,
        Selector::CanBecomeKeyWindow => "canBecomeKeyWindow"@,
        Selector::WindowDidResize => "windowDidResize:"@,
        Selector::WindowDidChangeOcclusionState => "windowDidChangeOcclusionState:"@,
        Selector::WindowWillEnterFullScreen => "windowWillEnterFullScreen:"@,
        Selector::WindowWillExitFullScreen => "windowWillExitFullScreen:"@,
        Selector::WindowDidExitFullScreen => "windowDidExitFullScreen:"@,
        Selector::WindowDidMove => "windowDidMove:"@,
        Selector::WindowDidChangeScreen => "windowDidChangeScreen:"@,
        Selector::WindowDidBecomeKey => "windowDidBecomeKey:"@,
        Selector::WindowDidResignKey => "windowDidResignKey:"@,
        Selector::WindowShouldClose => "windowShouldClose:"@,
        Selector::Close => "close"@,
        Selector::DraggingEntered => "draggingEntered:"@,
        Selector::DraggingUpdated => "draggingUpdated:"@,
        Selector::DraggingExited => "draggingExited:"@,
        Selector::PerformDragOperation => "performDragOperation:"@,
        Selector::ConcludeDragOperation => "concludeDragOperation:"@,
        Selector::DraggingSessionSourceOperationMask => "draggingSession:sourceOperationMaskForDraggingContext:"@,
        Selector::DraggingSessionEnded => "draggingSession:endedAtPoint:operation:"@,
        Selector::AddTitlebarAccessoryViewController => "addTitlebarAccessoryViewController:"@,
        Selector::MoveTabToNewWindow => "moveTabToNewWindow:"@,
        Selector::MergeAllWindows => "mergeAllWindows:"@,
        Selector::SelectNextTab => "selectNextTab:"@,
        Selector::SelectPreviousTab => "selectPreviousTab:"@,
        Selector::ToggleTabBar => "toggleTabBar:"@,
        Selector::InitWithFrame => "initWithFrame:"@,
        Selector::UpdateLayer => "updateLayer"@,
    }
}

/// Gives [`name_of`].
pub fn selector_name(selector: Selector) -> (name: &'static str)
    ensures
        name@ == name_of(selector),
{
    match selector {
        Selector::Dealloc => "dealloc",
        Selector::PerformKeyEquivalent => "performKeyEquivalent:",
        Selector::KeyDown => "keyDown:",
        Selector::KeyUp => "keyUp:",
        Selector::MouseDown => "mouseDown:",
        Selector::MouseUp => "mouseUp:",
        Selector::RightMouseDown => "rightMouseDown:",
        Selector::RightMouseUp => "rightMouseUp:",
        Selector::OtherMouseDown => "otherMouseDown:",
        Selector::OtherMouseUp => "otherMouseUp:",
        Selector::MouseMoved => "mouseMoved:",
        Selector::ResetCursorRects => "resetCursorRects",
        Selector::PressureChangeWithEvent => "pressureChangeWithEvent:",
        Selector::MouseExited => "mouseExited:",
        Selector::MagnifyWithEvent => "magnifyWithEvent:",
        Selector::MouseDragged => "mouseDragged:",
        Selector::RightMouseDragged => "rightMouseDragged:",
        Selector::OtherMouseDragged => "otherMouseDragged:",
        Selector::ScrollWheel => "scrollWheel:",
        Selector::SwipeWithEvent => "swipeWithEvent:",
        Selector::FlagsChanged => "flagsChanged:",
        Selector::MakeBackingLayer => "makeBackingLayer",
        Selector::ViewDidChangeBackingProperties => "viewDidChangeBackingProperties",
        Selector::SetFrameSize => "setFrameSize:",
        Selector::DisplayLayer => "displayLayer:",
        Selector::ValidAttributesForMarkedText => "validAttributesForMarkedText",
        Selector::HasMarkedText => "hasMarkedText",
        Selector::MarkedRange => "markedRange",
        Selector::SelectedRange => "selectedRange",
        Selector::FirstRectForCharacterRange => "firstRectForCharacterRange:actualRange:",
        Selector::InsertText => "insertText:replacementRange:",
        Selector::SetMarkedText => "setMarkedText:selectedRange:replacementRange:",
        Selector::UnmarkText => "unmarkText",
        Selector::AttributedSubstringForProposedRange => "attributedSubstringForProposedRange:actualRange:",
        Selector::ViewDidChangeEffectiveAppearance => "viewDidChangeEffectiveAppearance",
        Selector::DoCommandBySelector => "doCommandBySelector:",
        Selector::AcceptsFirstMouse => "acceptsFirstMouse:",
        Selector::OpaqueRectForWindowMoveWhenInTitlebar => "_opaqueRectForWindowMoveWhenInTitlebar",
        Selector::CharacterIndexForPoint => "characterIndexForPoint:",
        Selector::CanBecomeMainWindow => "canBecomeMainWindow",
        Selector::CanBecomeKeyWindow => "canBecomeKeyWindow",
        Selector::WindowDidResize => "windowDidResize:",
        Selector::WindowDidChangeOcclusionState => "windowDidChangeOcclusionState:",
        Selector::WindowWillEnterFullScreen => "windowWillEnterFullScreen:",
        Selector::WindowWillExitFullScreen => "windowWillExitFullScreen:",
        Selector::WindowDidExitFullScreen => "windowDidExitFullScreen:",
        Selector::WindowDidMove => "windowDidMove:",
        Selector::WindowDidChangeScreen => "windowDidChangeScreen:",
        Selector::WindowDidBecomeKey => "windowDidBecomeKey:",
        Selector::WindowDidResignKey => "windowDidResignKey:",
        Selector::WindowShouldClose => "windowShouldClose:",
        Selector::Close => "close",
        Selector::DraggingEntered => "draggingEntered:",
        Selector::DraggingUpdated => "draggingUpdated:",
        Selector::DraggingExited => "draggingExited:",
        Selector::PerformDragOperation => "performDragOperation:",
        Selector::ConcludeDragOperation => "concludeDragOperation:",
        Selector::DraggingSessionSourceOperationMask => "draggingSession:sourceOperationMaskForDraggingContext:",
        Selector::DraggingSessionEnded => "draggingSession:endedAtPoint:operation:",
        Selector::AddTitlebarAccessoryViewController => "addTitlebarAccessoryViewController:",
        Selector::MoveTabToNewWindow => "moveTabToNewWindow:",
        Selector::MergeAllWindows => "mergeAllWindows:",
        Selector::SelectNextTab => "selectNextTab:",
        Selector::SelectPreviousTab => "selectPreviousTab:",
        Selector::ToggleTabBar => "toggleTabBar:",
        Selector::InitWithFrame => "initWithFrame:",
        Selector::UpdateLayer => "updateLayer",
    }
}

/// The method that answers `selector` with `handler`.
pub open spec fn answers(selector: Selector, handler: Handler) -> Method {
    Method { selector, handler }
}

/// The methods of windows and panels, which differ in what they are released to.
pub open spec fn window_methods(is_panel: bool) -> Seq<Method> {
    seq![
        answers(
            Selector::Dealloc,
            if is_panel {
                Handler::DeallocPanel
            } else {
                Handler::DeallocWindow
            },
        ),
        answers(Selector::CanBecomeMainWindow, Handler::Yes),
        answers(Selector::CanBecomeKeyWindow, Handler::Yes),
        answers(Selector::WindowDidResize, Handler::WindowDidResize),
        answers(Selector::WindowDidChangeOcclusionState, Handler::WindowDidChangeOcclusionState),
        answers(Selector::WindowWillEnterFullScreen, Handler::WindowWillEnterFullScreen),
        answers(Selector::WindowWillExitFullScreen, Handler::WindowWillExitFullScreen),
        answers(Selector::WindowDidExitFullScreen, Handler::WindowDidExitFullScreen),
        answers(Selector::WindowDidMove, Handler::WindowDidMove),
        answers(Selector::WindowDidChangeScreen, Handler::WindowDidChangeScreen),
        answers(Selector::WindowDidBecomeKey, Handler::WindowDidChangeKeyStatus),
        answers(Selector::WindowDidResignKey, Handler::WindowDidChangeKeyStatus),
        answers(Selector::WindowShouldClose, Handler::WindowShouldClose),
        answers(Selector::Close, Handler::CloseWindow),
        answers(Selector::DraggingEntered, Handler::DraggingEntered),
        answers(Selector::DraggingUpdated, Handler::DraggingUpdated),
        answers(Selector::DraggingExited, Handler::DraggingExited),
        answers(Selector::PerformDragOperation, Handler::PerformDragOperation),
        answers(Selector::ConcludeDragOperation, Handler::ConcludeDragOperation),
        answers(Selector::DraggingSessionSourceOperationMask, Handler::DraggingSessionSourceOperationMask),
        answers(Selector::DraggingSessionEnded, Handler::DraggingSessionEnded),
        answers(Selector::AddTitlebarAccessoryViewController, Handler::AddTitlebarAccessoryViewController),
        answers(Selector::MoveTabToNewWindow, Handler::MoveTabToNewWindow),
        answers(Selector::MergeAllWindows, Handler::MergeAllWindows),
        answers(Selector::SelectNextTab, Handler::SelectNextTab),
        answers(Selector::SelectPreviousTab, Handler::SelectPreviousTab),
        answers(Selector::ToggleTabBar, Handler::ToggleTabBar),
    ]
}

/// The methods of views.
pub open spec fn view_methods() -> Seq<Method> {
    seq![
        answers(Selector::Dealloc, Handler::DeallocView),
        answers(Selector::PerformKeyEquivalent, Handler::HandleKeyEquivalent),
        answers(Selector::KeyDown, Handler::HandleKeyDown),
        answers(Selector::KeyUp, Handler::HandleKeyUp),
        answers(Selector::MouseDown, Handler::HandleViewEvent),
        answers(Selector::MouseUp, Handler::HandleViewEvent),
        answers(Selector::RightMouseDown, Handler::HandleViewEvent),
        answers(Selector::RightMouseUp, Handler::HandleViewEvent),
        answers(Selector::OtherMouseDown, Handler::HandleViewEvent),
        answers(Selector::OtherMouseUp, Handler::HandleViewEvent),
        answers(Selector::MouseMoved, Handler::HandleViewEvent),
        answers(Selector::ResetCursorRects, Handler::ResetCursorRects),
        answers(Selector::PressureChangeWithEvent, Handler::HandleViewEvent),
        answers(Selector::MouseExited, Handler::HandleViewEvent),
        answers(Selector::MagnifyWithEvent, Handler::HandleViewEvent),
        answers(Selector::MouseDragged, Handler::HandleViewEvent),
        answers(Selector::RightMouseDragged, Handler::HandleViewEvent),
        answers(Selector::OtherMouseDragged, Handler::HandleViewEvent),
        answers(Selector::ScrollWheel, Handler::HandleViewEvent),
        answers(Selector::SwipeWithEvent, Handler::HandleViewEvent),
        answers(Selector::FlagsChanged, Handler::HandleViewEvent),
        answers(Selector::MakeBackingLayer, Handler::MakeBackingLayer),
        answers(Selector::ViewDidChangeBackingProperties, Handler::ViewDidChangeBackingProperties),
        answers(Selector::SetFrameSize, Handler::SetFrameSize),
        answers(Selector::DisplayLayer, Handler::DisplayLayer),
        answers(Selector::ValidAttributesForMarkedText, Handler::ValidAttributesForMarkedText),
        answers(Selector::HasMarkedText, Handler::HasMarkedText),
        answers(Selector::MarkedRange, Handler::MarkedRange),
        answers(Selector::SelectedRange, Handler::SelectedRange),
        answers(Selector::FirstRectForCharacterRange, Handler::FirstRectForCharacterRange),
        answers(Selector::InsertText, Handler::InsertText),
        answers(Selector::SetMarkedText, Handler::SetMarkedText),
        answers(Selector::UnmarkText, Handler::UnmarkText),
        answers(Selector::AttributedSubstringForProposedRange, Handler::AttributedSubstringForProposedRange),
        answers(Selector::ViewDidChangeEffectiveAppearance, Handler::ViewDidChangeEffectiveAppearance),
        answers(Selector::DoCommandBySelector, Handler::DoCommandBySelector),
        answers(Selector::AcceptsFirstMouse, Handler::AcceptsFirstMouse),
        answers(Selector::OpaqueRectForWindowMoveWhenInTitlebar, Handler::OpaqueRectForWindowMoveWhenInTitlebar),
        answers(Selector::CharacterIndexForPoint, Handler::CharacterIndexForPoint),
    ]
}

/// The methods of blurred views.
pub open spec fn blurred_view_methods() -> Seq<Method> {
    seq![
        answers(Selector::InitWithFrame, Handler::BlurredViewInitWithFrame),
        answers(Selector::UpdateLayer, Handler::BlurredViewUpdateLayer),
    ]
}

/// The methods of a class.
pub open spec fn methods_of(class: NativeClass) -> Seq<Method> {
    match class {
        NativeClass::Window => window_methods(false),
        NativeClass::Panel => window_methods(true),
        NativeClass::View => view_methods(),
        NativeClass::BlurredView => blurred_view_methods(),
    }
}

fn push_method(methods: &mut Vec<Method>, selector: Selector, handler: Handler)
    ensures
        final(methods)@ == old(methods)@.push(answers(selector, handler)),
{
    methods.push(Method { selector, handler });
}

/// Lists the methods of windows and panels.
pub fn build_window_class(is_panel: bool) -> (methods: Vec<Method>)
    ensures
        methods@ == window_methods(is_panel),
{
    let mut methods: Vec<Method> = Vec::new();
    push_method(
        &mut methods,
        Selector::Dealloc,
        if is_panel {
            Handler::DeallocPanel
        } else {
            Handler::DeallocWindow
        },
    );
    push_method(&mut methods, Selector::CanBecomeMainWindow, Handler::Yes);
    push_method(&mut methods, Selector::CanBecomeKeyWindow, Handler::Yes);
    push_method(&mut methods, Selector::WindowDidResize, Handler::WindowDidResize);
    push_method(&mut methods, Selector::WindowDidChangeOcclusionState, Handler::WindowDidChangeOcclusionState);
    push_method(&mut methods, Selector::WindowWillEnterFullScreen, Handler::WindowWillEnterFullScreen);
    push_method(&mut methods, Selector::WindowWillExitFullScreen, Handler::WindowWillExitFullScreen);
    push_method(&mut methods, Selector::WindowDidExitFullScreen, Handler::WindowDidExitFullScreen);
    push_method(&mut methods, Selector::WindowDidMove, Handler::WindowDidMove);
    push_method(&mut methods, Selector::WindowDidChangeScreen, Handler::WindowDidChangeScreen);
    push_method(&mut methods, Selector::WindowDidBecomeKey, Handler::WindowDidChangeKeyStatus);
    push_method(&mut methods, Selector::WindowDidResignKey, Handler::WindowDidChangeKeyStatus);
    push_method(&mut methods, Selector::WindowShouldClose, Handler::WindowShouldClose);
    push_method(&mut methods, Selector::Close, Handler::CloseWindow);
    push_method(&mut methods, Selector::DraggingEntered, Handler::DraggingEntered);
    push_method(&mut methods, Selector::DraggingUpdated, Handler::DraggingUpdated);
    push_method(&mut methods, Selector::DraggingExited, Handler::DraggingExited);
    push_method(&mut methods, Selector::PerformDragOperation, Handler::PerformDragOperation);
    push_method(&mut methods, Selector::ConcludeDragOperation, Handler::ConcludeDragOperation);
    push_method(&mut methods, Selector::DraggingSessionSourceOperationMask, Handler::DraggingSessionSourceOperationMask);
    push_method(&mut methods, Selector::DraggingSessionEnded, Handler::DraggingSessionEnded);
    push_method(&mut methods, Selector::AddTitlebarAccessoryViewController, Handler::AddTitlebarAccessoryViewController);
    push_method(&mut methods, Selector::MoveTabToNewWindow, Handler::MoveTabToNewWindow);
    push_method(&mut methods, Selector::MergeAllWindows, Handler::MergeAllWindows);
    push_method(&mut methods, Selector::SelectNextTab, Handler::SelectNextTab);
    push_method(&mut methods, Selector::SelectPreviousTab, Handler::SelectPreviousTab);
    push_method(&mut methods, Selector::ToggleTabBar, Handler::ToggleTabBar);
    assert(methods@ =~= window_methods(is_panel));
    methods
}

/// Lists the methods of views.
pub fn build_view_class() -> (methods: Vec<Method>)
    ensures
        methods@ == view_methods(),
{
    let mut methods: Vec<Method> = Vec::new();
    push_method(&mut methods, Selector::Dealloc, Handler::DeallocView);
    push_method(&mut methods, Selector::PerformKeyEquivalent, Handler::HandleKeyEquivalent);
    push_method(&mut methods, Selector::KeyDown, Handler::HandleKeyDown);
    push_method(&mut methods, Selector::KeyUp, Handler::HandleKeyUp);
    push_method(&mut methods, Selector::MouseDown, Handler::HandleViewEvent);
    push_method(&mut methods, Selector::MouseUp, Handler::HandleViewEvent);
    push_method(&mut methods, Selector::RightMouseDown, Handler::HandleViewEvent);
    push_method(&mut methods, Selector::RightMouseUp, Handler::HandleViewEvent);
    push_method(&mut methods, Selector::OtherMouseDown, Handler::HandleViewEvent);
    push_method(&mut methods, Selector::OtherMouseUp, Handler::HandleViewEvent);
    push_method(&mut methods, Selector::MouseMoved, Handler::HandleViewEvent);
    push_method(&mut methods, Selector::ResetCursorRects, Handler::ResetCursorRects);
    push_method(&mut methods, Selector::PressureChangeWithEvent, Handler::HandleViewEvent);
    push_method(&mut methods, Selector::MouseExited, Handler::HandleViewEvent);
    push_method(&mut methods, Selector::MagnifyWithEvent, Handler::HandleViewEvent);
    push_method(&mut methods, Selector::MouseDragged, Handler::HandleViewEvent);
    push_method(&mut methods, Selector::RightMouseDragged, Handler::HandleViewEvent);
    push_method(&mut methods, Selector::OtherMouseDragged, Handler::HandleViewEvent);
    push_method(&mut methods, Selector::ScrollWheel, Handler::HandleViewEvent);
    push_method(&mut methods, Selector::SwipeWithEvent, Handler::HandleViewEvent);
    push_method(&mut methods, Selector::FlagsChanged, Handler::HandleViewEvent);
    push_method(&mut methods, Selector::MakeBackingLayer, Handler::MakeBackingLayer);
    push_method(&mut methods, Selector::ViewDidChangeBackingProperties, Handler::ViewDidChangeBackingProperties);
    push_method(&mut methods, Selector::SetFrameSize, Handler::SetFrameSize);
    push_method(&mut methods, Selector::DisplayLayer, Handler::DisplayLayer);
    push_method(&mut methods, Selector::ValidAttributesForMarkedText, Handler::ValidAttributesForMarkedText);
    push_method(&mut methods, Selector::HasMarkedText, Handler::HasMarkedText);
    push_method(&mut methods, Selector::MarkedRange, Handler::MarkedRange);
    push_method(&mut methods, Selector::SelectedRange, Handler::SelectedRange);
    push_method(&mut methods, Selector::FirstRectForCharacterRange, Handler::FirstRectForCharacterRange);
    push_method(&mut methods, Selector::InsertText, Handler::InsertText);
    push_method(&mut methods, Selector::SetMarkedText, Handler::SetMarkedText);
    push_method(&mut methods, Selector::UnmarkText, Handler::UnmarkText);
    push_method(&mut methods, Selector::AttributedSubstringForProposedRange, Handler::AttributedSubstringForProposedRange);
    push_method(&mut methods, Selector::ViewDidChangeEffectiveAppearance, Handler::ViewDidChangeEffectiveAppearance);
    push_method(&mut methods, Selector::DoCommandBySelector, Handler::DoCommandBySelector);
    push_method(&mut methods, Selector::AcceptsFirstMouse, Handler::AcceptsFirstMouse);
    push_method(&mut methods, Selector::OpaqueRectForWindowMoveWhenInTitlebar, Handler::OpaqueRectForWindowMoveWhenInTitlebar);
    push_method(&mut methods, Selector::CharacterIndexForPoint, Handler::CharacterIndexForPoint);
    assert(methods@ =~= view_methods());
    methods
}

/// Lists the methods of a class.
pub fn build_classes(class: NativeClass) -> (methods: Vec<Method>)
    ensures
        methods@ == methods_of(class),
{
    match class {
        NativeClass::Window => build_window_class(false),
        NativeClass::Panel => build_window_class(true),
        NativeClass::View => build_view_class(),
        NativeClass::BlurredView => {
            let mut methods: Vec<Method> = Vec::new();
            push_method(&mut methods, Selector::InitWithFrame, Handler::BlurredViewInitWithFrame);
            push_method(&mut methods, Selector::UpdateLayer, Handler::BlurredViewUpdateLayer);
            assert(methods@ =~= blurred_view_methods());
            methods
        },
    }
}

/// The place of a selector among the methods of its class.
spec fn place(selector: Selector) -> int {
    match selector {
        Selector::Dealloc => 0,
        Selector::PerformKeyEquivalent => 1,
        Selector::KeyDown => 2,
        Selector::KeyUp => 3,
        Selector::MouseDown => 4,
        Selector::MouseUp => 5,
        Selector::RightMouseDown => 6,
        Selector::RightMouseUp => 7,
        Selector::OtherMouseDown => 8,
        Selector::OtherMouseUp => 9,
        Selector::MouseMoved => 10,
        Selector::ResetCursorRects => 11,
        Selector::PressureChangeWithEvent => 12,
        Selector::MouseExited => 13,
        Selector::MagnifyWithEvent => 14,
        Selector::MouseDragged => 15,
        Selector::RightMouseDragged => 16,
        Selector::OtherMouseDragged => 17,
        Selector::ScrollWheel => 18,
        Selector::SwipeWithEvent => 19,
        Selector::FlagsChanged => 20,
        Selector::MakeBackingLayer => 21,
        Selector::ViewDidChangeBackingProperties => 22,
        Selector::SetFrameSize => 23,
        Selector::DisplayLayer => 24,
        Selector::ValidAttributesForMarkedText => 25,
        Selector::HasMarkedText => 26,
        Selector::MarkedRange => 27,
        Selector::SelectedRange => 28,
        Selector::FirstRectForCharacterRange => 29,
        Selector::InsertText => 30,
        Selector::SetMarkedText => 31,
        Selector::UnmarkText => 32,
        Selector::AttributedSubstringForProposedRange => 33,
        Selector::ViewDidChangeEffectiveAppearance => 34,
        Selector::DoCommandBySelector => 35,
        Selector::AcceptsFirstMouse => 36,
        Selector::OpaqueRectForWindowMoveWhenInTitlebar => 37,
        Selector::CharacterIndexForPoint => 38,
        Selector::CanBecomeMainWindow => 1,
        Selector::CanBecomeKeyWindow => 2,
        Selector::WindowDidResize => 3,
        Selector::WindowDidChangeOcclusionState => 4,
        Selector::WindowWillEnterFullScreen => 5,
        Selector::WindowWillExitFullScreen => 6,
        Selector::WindowDidExitFullScreen => 7,
        Selector::WindowDidMove => 8,
        Selector::WindowDidChangeScreen => 9,
        Selector::WindowDidBecomeKey => 10,
        Selector::WindowDidResignKey => 11,
        Selector::WindowShouldClose => 12,
        Selector::Close => 13,
        Selector::DraggingEntered => 14,
        Selector::DraggingUpdated => 15,
        Selector::DraggingExited => 16,
        Selector::PerformDragOperation => 17,
        Selector::ConcludeDragOperation => 18,
        Selector::DraggingSessionSourceOperationMask => 19,
        Selector::DraggingSessionEnded => 20,
        Selector::AddTitlebarAccessoryViewController => 21,
        Selector::MoveTabToNewWindow => 22,
        Selector::MergeAllWindows => 23,
        Selector::SelectNextTab => 24,
        Selector::SelectPreviousTab => 25,
        Selector::ToggleTabBar => 26,
        Selector::InitWithFrame => 0,
        Selector::UpdateLayer => 1,
    }
}

/// No class answers a message in two ways, which the Objective-C runtime would refuse.
pub proof fn every_message_has_one_answer(class: NativeClass, i: int, j: int)
    requires
        0 <= i < j < methods_of(class).len(),
    ensures
        methods_of(class)[i].selector != methods_of(class)[j].selector,
{
    let methods = methods_of(class);
    assert(place(methods[i].selector) == i);
    assert(place(methods[j].selector) == j);
}

/// Mouse, scroll, gesture and modifier events of the view have one handler; every other message
/// has the handler of its own name, both changes of key status share one, and a window can become
/// main and key.
pub proof fn messages_reach_their_handlers(class: NativeClass, i: int)
    requires
        0 <= i < methods_of(class).len(),
    ensures
        methods_of(class)[i].handler == match methods_of(class)[i].selector {
            Selector::Dealloc => match class {
                NativeClass::Window => Handler::DeallocWindow,
                NativeClass::Panel => Handler::DeallocPanel,
                _ => Handler::DeallocView,
            },
            Selector::CanBecomeMainWindow | Selector::CanBecomeKeyWindow => Handler::Yes,
            Selector::WindowDidBecomeKey
            | Selector::WindowDidResignKey => Handler::WindowDidChangeKeyStatus,
            Selector::MouseDown
            | Selector::MouseUp
            | Selector::RightMouseDown
            | Selector::RightMouseUp
            | Selector::OtherMouseDown
            | Selector::OtherMouseUp
            | Selector::MouseMoved
            | Selector::MouseExited
            | Selector::MouseDragged
            | Selector::RightMouseDragged
            | Selector::OtherMouseDragged
            | Selector::PressureChangeWithEvent
            | Selector::MagnifyWithEvent
            | Selector::ScrollWheel
            | Selector::SwipeWithEvent
            | Selector::FlagsChanged => Handler::HandleViewEvent,
            Selector::PerformKeyEquivalent => Handler::HandleKeyEquivalent,
            Selector::KeyDown => Handler::HandleKeyDown,
            Selector::KeyUp => Handler::HandleKeyUp,
            Selector::ResetCursorRects => Handler::ResetCursorRects,
            Selector::MakeBackingLayer => Handler::MakeBackingLayer,
            Selector::ViewDidChangeBackingProperties => Handler::ViewDidChangeBackingProperties,
            Selector::SetFrameSize => Handler::SetFrameSize,
            Selector::DisplayLayer => Handler::DisplayLayer,
            Selector::ValidAttributesForMarkedText => Handler::ValidAttributesForMarkedText,
            Selector::HasMarkedText => Handler::HasMarkedText,
            Selector::MarkedRange => Handler::MarkedRange,
            Selector::SelectedRange => Handler::SelectedRange,
            Selector::FirstRectForCharacterRange => Handler::FirstRectForCharacterRange,
            Selector::InsertText => Handler::InsertText,
            Selector::SetMarkedText => Handler::SetMarkedText,
            Selector::UnmarkText => Handler::UnmarkText,
            Selector::AttributedSubstringForProposedRange => Handler::AttributedSubstringForProposedRange,
            Selector::ViewDidChangeEffectiveAppearance => Handler::ViewDidChangeEffectiveAppearance,
            Selector::DoCommandBySelector => Handler::DoCommandBySelector,
            Selector::AcceptsFirstMouse => Handler::AcceptsFirstMouse,
            Selector::OpaqueRectForWindowMoveWhenInTitlebar => Handler::OpaqueRectForWindowMoveWhenInTitlebar,
            Selector::CharacterIndexForPoint => Handler::CharacterIndexForPoint,
            Selector::WindowDidResize => Handler::WindowDidResize,
            Selector::WindowDidChangeOcclusionState => Handler::WindowDidChangeOcclusionState,
            Selector::WindowWillEnterFullScreen => Handler::WindowWillEnterFullScreen,
            Selector::WindowWillExitFullScreen => Handler::WindowWillExitFullScreen,
            Selector::WindowDidExitFullScreen => Handler::WindowDidExitFullScreen,
            Selector::WindowDidMove => Handler::WindowDidMove,
            Selector::WindowDidChangeScreen => Handler::WindowDidChangeScreen,
            Selector::WindowShouldClose => Handler::WindowShouldClose,
            Selector::Close => Handler::CloseWindow,
            Selector::DraggingEntered => Handler::DraggingEntered,
            Selector::DraggingUpdated => Handler::DraggingUpdated,
            Selector::DraggingExited => Handler::DraggingExited,
            Selector::PerformDragOperation => Handler::PerformDragOperation,
            Selector::ConcludeDragOperation => Handler::ConcludeDragOperation,
            Selector::DraggingSessionSourceOperationMask => Handler::DraggingSessionSourceOperationMask,
            Selector::DraggingSessionEnded => Handler::DraggingSessionEnded,
            Selector::AddTitlebarAccessoryViewController => Handler::AddTitlebarAccessoryViewController,
            Selector::MoveTabToNewWindow => Handler::MoveTabToNewWindow,
            Selector::MergeAllWindows => Handler::MergeAllWindows,
            Selector::SelectNextTab => Handler::SelectNextTab,
            Selector::SelectPreviousTab => Handler::SelectPreviousTab,
            Selector::ToggleTabBar => Handler::ToggleTabBar,
            Selector::InitWithFrame => Handler::BlurredViewInitWithFrame,
            Selector::UpdateLayer => Handler::BlurredViewUpdateLayer,
        },
{
}

/// Whether a message is about the window rather than about its view.
pub open spec fn is_for_windows(selector: Selector) -> bool {
    match selector {
        Selector::CanBecomeMainWindow
        | Selector::CanBecomeKeyWindow
        | Selector::WindowDidResize
        | Selector::WindowDidChangeOcclusionState
        | Selector::WindowWillEnterFullScreen
        | Selector::WindowWillExitFullScreen
        | Selector::WindowDidExitFullScreen
        | Selector::WindowDidMove
        | Selector::WindowDidChangeScreen
        | Selector::WindowDidBecomeKey
        | Selector::WindowDidResignKey
        | Selector::WindowShouldClose
        | Selector::Close
        | Selector::DraggingEntered
        | Selector::DraggingUpdated
        | Selector::DraggingExited
        | Selector::PerformDragOperation
        | Selector::ConcludeDragOperation
        | Selector::DraggingSessionSourceOperationMask
        | Selector::DraggingSessionEnded
        | Selector::AddTitlebarAccessoryViewController
        | Selector::MoveTabToNewWindow
        | Selector::MergeAllWindows
        | Selector::SelectNextTab
        | Selector::SelectPreviousTab
        | Selector::ToggleTabBar => true,
        _ => false,
    }
}

/// Windows and panels answer all messages about windows, views all about views, and each knows how
/// to be deallocated; blurred views answer two of their own.
pub proof fn every_message_is_answered(selector: Selector)
    ensures
        selector != Selector::InitWithFrame && selector != Selector::UpdateLayer ==> {
            let for_windows = is_for_windows(selector) || selector == Selector::Dealloc;
            let for_views = !is_for_windows(selector);
            &&& for_windows ==> exists|i: int|
                0 <= i < methods_of(NativeClass::Window).len() && (#[trigger] methods_of(
                    NativeClass::Window,
                )[i]).selector == selector
            &&& for_windows ==> exists|i: int|
                0 <= i < methods_of(NativeClass::Panel).len() && (#[trigger] methods_of(
                    NativeClass::Panel,
                )[i]).selector == selector
            &&& for_views ==> exists|i: int|
                0 <= i < methods_of(NativeClass::View).len() && (#[trigger] methods_of(
                    NativeClass::View,
                )[i]).selector == selector
        },
        methods_of(NativeClass::BlurredView).len() == 2,
{
    let i = place(selector);
    if selector != Selector::InitWithFrame && selector != Selector::UpdateLayer {
        if is_for_windows(selector) || selector == Selector::Dealloc {
            assert(methods_of(NativeClass::Window)[i].selector == selector);
            assert(methods_of(NativeClass::Panel)[i].selector == selector);
        }
        if !is_for_windows(selector) {
            assert(methods_of(NativeClass::View)[i].selector == selector);
        }
    }
}

/// Messages about windows have the names that AppKit sends them by.
pub proof fn window_messages_are_named_as_appkit_names_them()
    ensures
        name_of(Selector::CanBecomeMainWindow) == "canBecomeMainWindow"@,
        name_of(Selector::CanBecomeKeyWindow) == "canBecomeKeyWindow"@,
        name_of(Selector::WindowDidResize) == "windowDidResize:"@,
        name_of(Selector::WindowDidChangeOcclusionState) == "windowDidChangeOcclusionState:"@,
        name_of(Selector::WindowWillEnterFullScreen) == "windowWillEnterFullScreen:"@,
        name_of(Selector::WindowWillExitFullScreen) == "windowWillExitFullScreen:"@,
        name_of(Selector::WindowDidExitFullScreen) == "windowDidExitFullScreen:"@,
        name_of(Selector::WindowDidMove) == "windowDidMove:"@,
        name_of(Selector::WindowDidChangeScreen) == "windowDidChangeScreen:"@,
        name_of(Selector::WindowDidBecomeKey) == "windowDidBecomeKey:"@,
        name_of(Selector::WindowDidResignKey) == "windowDidResignKey:"@,
        name_of(Selector::WindowShouldClose) == "windowShouldClose:"@,
        name_of(Selector::Close) == "close"@,
        name_of(Selector::DraggingEntered) == "draggingEntered:"@,
        name_of(Selector::DraggingUpdated) == "draggingUpdated:"@,
        name_of(Selector::DraggingExited) == "draggingExited:"@,
        name_of(Selector::PerformDragOperation) == "performDragOperation:"@,
        name_of(Selector::ConcludeDragOperation) == "concludeDragOperation:"@,
        name_of(Selector::DraggingSessionSourceOperationMask) == "draggingSession:sourceOperationMaskForDraggingContext:"@,
        name_of(Selector::DraggingSessionEnded) == "draggingSession:endedAtPoint:operation:"@,
        name_of(Selector::AddTitlebarAccessoryViewController) == "addTitlebarAccessoryViewController:"@,
        name_of(Selector::MoveTabToNewWindow) == "moveTabToNewWindow:"@,
        name_of(Selector::MergeAllWindows) == "mergeAllWindows:"@,
        name_of(Selector::SelectNextTab) == "selectNextTab:"@,
        name_of(Selector::SelectPreviousTab) == "selectPreviousTab:"@,
        name_of(Selector::ToggleTabBar) == "toggleTabBar:"@,
{
}

/// Messages about views have the names that AppKit sends them by.
pub proof fn view_messages_are_named_as_appkit_names_them()
    ensures
        name_of(Selector::Dealloc) == "dealloc"@,
        name_of(Selector::PerformKeyEquivalent) == "performKeyEquivalent:"@,
        name_of(Selector::KeyDown) == "keyDown:"@,
        name_of(Selector::KeyUp) == "keyUp:"@,
        name_of(Selector::MouseDown) == "mouseDown:"@,
        name_of(Selector::MouseUp) == "mouseUp:"@,
        name_of(Selector::RightMouseDown) == "rightMouseDown:"@,
        name_of(Selector::RightMouseUp) == "rightMouseUp:"@,
        name_of(Selector::OtherMouseDown) == "otherMouseDown:"@,
        name_of(Selector::OtherMouseUp) == "otherMouseUp:"@,
        name_of(Selector::MouseMoved) == "mouseMoved:"@,
        name_of(Selector::ResetCursorRects) == "resetCursorRects"@,
        name_of(Selector::PressureChangeWithEvent) == "pressureChangeWithEvent:"@,
        name_of(Selector::MouseExited) == "mouseExited:"@,
        name_of(Selector::MagnifyWithEvent) == "magnifyWithEvent:"@,
        name_of(Selector::MouseDragged) == "mouseDragged:"@,
        name_of(Selector::RightMouseDragged) == "rightMouseDragged:"@,
        name_of(Selector::OtherMouseDragged) == "otherMouseDragged:"@,
        name_of(Selector::ScrollWheel) == "scrollWheel:"@,
        name_of(Selector::SwipeWithEvent) == "swipeWithEvent:"@,
        name_of(Selector::FlagsChanged) == "flagsChanged:"@,
        name_of(Selector::MakeBackingLayer) == "makeBackingLayer"@,
        name_of(Selector::ViewDidChangeBackingProperties) == "viewDidChangeBackingProperties"@,
        name_of(Selector::SetFrameSize) == "setFrameSize:"@,
        name_of(Selector::DisplayLayer) == "displayLayer:"@,
        name_of(Selector::ValidAttributesForMarkedText) == "validAttributesForMarkedText"@,
        name_of(Selector::HasMarkedText) == "hasMarkedText"@,
        name_of(Selector::MarkedRange) == "markedRange"@,
        name_of(Selector::SelectedRange) == "selectedRange"@,
        name_of(Selector::FirstRectForCharacterRange) == "firstRectForCharacterRange:actualRange:"@,
        name_of(Selector::InsertText) == "insertText:replacementRange:"@,
        name_of(Selector::SetMarkedText) == "setMarkedText:selectedRange:replacementRange:"@,
        name_of(Selector::UnmarkText) == "unmarkText"@,
        name_of(Selector::AttributedSubstringForProposedRange) == "attributedSubstringForProposedRange:actualRange:"@,
        name_of(Selector::ViewDidChangeEffectiveAppearance) == "viewDidChangeEffectiveAppearance"@,
        name_of(Selector::DoCommandBySelector) == "doCommandBySelector:"@,
        name_of(Selector::AcceptsFirstMouse) == "acceptsFirstMouse:"@,
        name_of(Selector::OpaqueRectForWindowMoveWhenInTitlebar) == "_opaqueRectForWindowMoveWhenInTitlebar"@,
        name_of(Selector::CharacterIndexForPoint) == "characterIndexForPoint:"@,
        name_of(Selector::InitWithFrame) == "initWithFrame:"@,
        name_of(Selector::UpdateLayer) == "updateLayer"@,
{
}

/// A class of this library extends the class of AppKit that it is named after, and blurred views
/// extend its visual effects.
pub proof fn classes_extend_their_namesakes()
    ensures
        class_name_of(NativeClass::Window) == "GPUIWindow"@,
        superclass_of(NativeClass::Window) == "NSWindow"@,
        class_name_of(NativeClass::Panel) == "GPUIPanel"@,
        superclass_of(NativeClass::Panel) == "NSPanel"@,
        class_name_of(NativeClass::View) == "GPUIView"@,
        superclass_of(NativeClass::View) == "NSView"@,
        class_name_of(NativeClass::BlurredView) == "BlurredView"@,
        superclass_of(NativeClass::BlurredView) == "NSVisualEffectView"@,
{
}

/// Windows and panels can be the source of drags, and views draw into layers and take text.
pub proof fn classes_conform_to_what_they_do(class: NativeClass)
    ensures
        class == NativeClass::Window || class == NativeClass::Panel ==> protocols_of(class)
            == seq!["NSDraggingSource"@],
        class == NativeClass::View ==> protocols_of(class) == seq![
            "CALayerDelegate"@,
            "NSTextInputClient"@,
        ],
        class == NativeClass::BlurredView ==> protocols_of(class).len() == 0,
{
}

} // verus!
