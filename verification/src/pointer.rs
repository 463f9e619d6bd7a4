//! Mouse and modifier events of the view: how they are rewritten before the application sees
//! them, and the synthetic drag that keeps a selection scrolling.

use vstd::prelude::*;

use crate::geometry::Point;
use crate::keyboard::Modifiers;

verus! {

#[derive(Clone, Copy, Debug, PartialEq, Eq, Structural)]
pub enum MouseButton {
    Left,
    Right,
    Middle,
    NavigateBack,
    NavigateForward,
}

#[derive(Clone, Copy, Debug, PartialEq, Eq, Structural)]
pub struct MouseDownEvent {
    pub button: MouseButton,
    pub position: Point,
    pub modifiers: Modifiers,
    pub click_count: u64,
    /// Whether the click also brought the window into focus.
    pub first_mouse: bool,
}

#[derive(Clone, Copy, Debug, PartialEq, Eq, Structural)]
pub struct MouseUpEvent {
    pub button: MouseButton,
    pub position: Point,
    pub modifiers: Modifiers,
    pub click_count: u64,
}

#[derive(Clone, Copy, Debug, PartialEq, Eq, Structural)]
pub struct MouseMoveEvent {
    pub position: Point,
    pub pressed_button: Option<MouseButton>,
    pub modifiers: Modifiers,
}

#[derive(Clone, Copy, Debug, PartialEq, Eq, Structural)]
pub struct ModifiersChangedEvent {
    pub modifiers: Modifiers,
    pub capslock: bool,
}

/// What the host makes of a native event of the view. Where only the kind matters, a number
/// stands for the event, by which the host finds it again.
#[derive(Clone, Copy, Debug, PartialEq, Eq, Structural)]
pub enum ViewInput {
    MouseDown(MouseDownEvent),
    MouseUp(MouseUpEvent),
    MouseMove(MouseMoveEvent),
    MousePressure(u64),
    MouseExited(u64),
    ScrollWheel(u64),
    Pinch(u64),
    ModifiersChanged(ModifiersChangedEvent),
    Other(u64),
}

/// The kind of a native event, as far as it matters here.
#[derive(Clone, Copy, Debug, PartialEq, Eq, Structural)]
pub enum NativeEventKind {
    LeftMouseDown,
    LeftMouseUp,
    Other,
}

/// A mouse move that is repeated while the button stays down and the pointer rests.
#[derive(Clone, Copy, Debug, PartialEq, Eq, Structural)]
pub struct SyntheticDrag {
    pub drag_id: usize,
    pub event: MouseMoveEvent,
}

/// What is next for an event.
#[derive(Clone, Copy, Debug, PartialEq, Eq, Structural)]
pub enum ViewStep {
    Done,
    /// Let AppKit's input context handle the native event, then resume with this event.
    InputContext(ViewInput),
    /// Run this event callback on this event, and put it back into its slot.
    Deliver { callback: u64, event: ViewInput },
}

/// The outcome of a native event.
#[derive(Clone, Copy, Debug, PartialEq, Eq, Structural)]
pub struct ViewOutcome {
    /// The cursor is visible again: AppKit unhides it when the mouse is used.
    pub show_cursor: bool,
    /// A synthetic drag to start.
    pub synthetic_drag: Option<SyntheticDrag>,
    pub step: ViewStep,
}

/// What a window remembers between mouse events.
#[derive(Clone, Copy, Debug, PartialEq, Eq, Structural)]
pub struct PointerState {
    /// The native event of the left button that is down, from which an external drag can start.
    pub last_left_mouse_down_event: Option<u64>,
    /// The synthetic drag with this number goes on; all others stop.
    pub synthetic_drag_counter: usize,
    pub previous_modifiers_changed_event: Option<ModifiersChangedEvent>,
    /// Whether files are being dragged into the window from outside.
    pub external_files_dragged: bool,
    /// Whether the next click of the left button is also the focusing click.
    pub first_mouse: bool,
}

/// Whether the event shows the cursor.
pub open spec fn shows_cursor(event: ViewInput) -> bool {
    match event {
        ViewInput::ModifiersChanged(_) | ViewInput::Other(_) => false,
        _ => true,
    }
}

/// Whether the event is a press of the left button with control held.
pub open spec fn is_control_press(event: ViewInput) -> bool {
    event matches ViewInput::MouseDown(down) && down.button == MouseButton::Left
        && down.modifiers.control
}

/// Whether the event is a press of the left button without control held.
pub open spec fn is_plain_press(event: ViewInput) -> bool {
    event matches ViewInput::MouseDown(down) && down.button == MouseButton::Left
        && !down.modifiers.control
}

/// The event that the application sees: the left button with control held is the right button,
/// pressed once; a press that focuses the window says so.
pub open spec fn rewritten(event: ViewInput, first_mouse: bool) -> ViewInput {
    match event {
        ViewInput::MouseDown(down) => if is_control_press(event) {
            ViewInput::MouseDown(
                MouseDownEvent {
                    button: MouseButton::Right,
                    modifiers: Modifiers { control: false, ..down.modifiers },
                    click_count: 1,
                    ..down
                },
            )
        } else if is_plain_press(event) && first_mouse {
            ViewInput::MouseDown(MouseDownEvent { first_mouse: true, ..down })
        } else {
            event
        },
        ViewInput::MouseUp(up) => if up.button == MouseButton::Left && up.modifiers.control {
            ViewInput::MouseUp(
                MouseUpEvent {
                    button: MouseButton::Right,
                    modifiers: Modifiers { control: false, ..up.modifiers },
                    click_count: 1,
                    ..up
                },
            )
        } else {
            event
        },
        _ => event,
    }
}

/// The native event that an external drag can start from, after a native event.
pub open spec fn mouse_down_after(
    last: Option<u64>,
    kind: NativeEventKind,
    native_event: u64,
) -> Option<u64> {
    match kind {
        NativeEventKind::LeftMouseDown => Some(native_event),
        NativeEventKind::LeftMouseUp => None,
        NativeEventKind::Other => last,
    }
}

/// Whether the event stops the synthetic drag that is under way: the mouse moves or the button is
/// released. Files that are dragged in bring mouse events of their own, which leave it alone.
pub open spec fn advances_drag(event: ViewInput, external_files_dragged: bool) -> bool {
    match event {
        ViewInput::MouseMove(event) => event.pressed_button is Some && !external_files_dragged,
        ViewInput::MouseUp(_) => true,
        _ => false,
    }
}

/// The pointer state after a native event that the host has turned into `event`.
pub open spec fn pointer_after(
    pointer: PointerState,
    kind: NativeEventKind,
    native_event: u64,
    event: Option<ViewInput>,
) -> PointerState {
    let last = mouse_down_after(pointer.last_left_mouse_down_event, kind, native_event);
    match event {
        None => PointerState { last_left_mouse_down_event: last, ..pointer },
        Some(event) => PointerState {
            last_left_mouse_down_event: last,
            synthetic_drag_counter: if advances_drag(event, pointer.external_files_dragged) {
                (pointer.synthetic_drag_counter + 1) as usize
            } else {
                pointer.synthetic_drag_counter
            },
            previous_modifiers_changed_event: match event {
                ViewInput::ModifiersChanged(event) => Some(event),
                _ => pointer.previous_modifiers_changed_event,
            },
            external_files_dragged: pointer.external_files_dragged,
            first_mouse: pointer.first_mouse && !is_plain_press(event),
        },
    }
}

/// Delivers an event if there is an event callback.
pub open spec fn delivery(callback: Option<u64>, event: ViewInput) -> ViewStep {
    match callback {
        Some(callback) => ViewStep::Deliver { callback, event },
        None => ViewStep::Done,
    }
}

/// Whether the event reports modifiers that have been reported already.
pub open spec fn is_repeated(pointer: PointerState, event: ViewInput) -> bool {
    event matches ViewInput::ModifiersChanged(event) && pointer.previous_modifiers_changed_event
        == Some(event)
}

/// The outcome of a native event that the host has turned into `event`.
pub open spec fn view_outcome(
    pointer: PointerState,
    callback: Option<u64>,
    event: Option<ViewInput>,
) -> ViewOutcome {
    match event {
        None => ViewOutcome { show_cursor: false, synthetic_drag: None, step: ViewStep::Done },
        Some(event) => ViewOutcome {
            show_cursor: shows_cursor(event),
            synthetic_drag: match event {
                ViewInput::MouseMove(event) => if event.pressed_button is Some
                    && !pointer.external_files_dragged {
                    Some(
                        SyntheticDrag {
                            drag_id: (pointer.synthetic_drag_counter + 1) as usize,
                            event,
                        },
                    )
                } else {
                    None
                },
                _ => None,
            },
            step: if event is MouseDown {
                ViewStep::InputContext(rewritten(event, pointer.first_mouse))
            } else if is_repeated(pointer, event) {
                ViewStep::Done
            } else {
                delivery(callback, rewritten(event, pointer.first_mouse))
            },
        },
    }
}

/// The slot of the event callback after a step: empty while the callback runs.
pub open spec fn slot_after(callback: Option<u64>, step: ViewStep) -> Option<u64> {
    if step is Deliver {
        None
    } else {
        callback
    }
}

fn deliver(callback: &mut Option<u64>, event: ViewInput) -> (step: ViewStep)
    ensures
        step == delivery(*old(callback), event),
        *final(callback) == slot_after(*old(callback), step),
{
    match callback.take() {
        Some(callback) => ViewStep::Deliver { callback, event },
        None => ViewStep::Done,
    }
}

impl PointerState {
    /// Nothing to remember.
    pub open spec fn initial() -> PointerState {
        PointerState {
            last_left_mouse_down_event: None,
            synthetic_drag_counter: 0,
            previous_modifiers_changed_event: None,
            external_files_dragged: false,
            first_mouse: false,
        }
    }

    pub fn new() -> (result: PointerState)
        ensures
            result == PointerState::initial(),
    {
        PointerState {
            last_left_mouse_down_event: None,
            synthetic_drag_counter: 0,
            previous_modifiers_changed_event: None,
            external_files_dragged: false,
            first_mouse: false,
        }
    }

    /// Handles a native event of the view, which the host has turned into `event` if it could.
    pub fn handle_view_event(
        &mut self,
        callback: &mut Option<u64>,
        kind: NativeEventKind,
        native_event: u64,
        event: Option<ViewInput>,
    ) -> (outcome: ViewOutcome)
        requires
            event matches Some(event) && advances_drag(event, old(self).external_files_dragged)
                ==> old(self).synthetic_drag_counter < usize::MAX,
        ensures
            *final(self) == pointer_after(*old(self), kind, native_event, event),
            outcome == view_outcome(*old(self), *old(callback), event),
            *final(callback) == slot_after(*old(callback), outcome.step),
    {
        match kind {
            NativeEventKind::LeftMouseDown => {
                self.last_left_mouse_down_event = Some(native_event);
            },
            NativeEventKind::LeftMouseUp => {
                self.last_left_mouse_down_event = None;
            },
            NativeEventKind::Other => {},
        }
        match event {
            None => ViewOutcome { show_cursor: false, synthetic_drag: None, step: ViewStep::Done },
            Some(ViewInput::MouseDown(down)) => {
                let seen: MouseDownEvent = if down.button == MouseButton::Left
                    && down.modifiers.control {
                    MouseDownEvent {
                        button: MouseButton::Right,
                        modifiers: Modifiers { control: false, ..down.modifiers },
                        click_count: 1,
                        ..down
                    }
                } else if down.button == MouseButton::Left && self.first_mouse {
                    self.first_mouse = false;
                    MouseDownEvent { first_mouse: true, ..down }
                } else {
                    down
                };
                ViewOutcome {
                    show_cursor: true,
                    synthetic_drag: None,
                    step: ViewStep::InputContext(ViewInput::MouseDown(seen)),
                }
            },
            Some(ViewInput::MouseUp(up)) => {
                let seen: MouseUpEvent = if up.button == MouseButton::Left && up.modifiers.control {
                    MouseUpEvent {
                        button: MouseButton::Right,
                        modifiers: Modifiers { control: false, ..up.modifiers },
                        click_count: 1,
                        ..up
                    }
                } else {
                    up
                };
                self.synthetic_drag_counter = self.synthetic_drag_counter + 1;
                ViewOutcome {
                    show_cursor: true,
                    synthetic_drag: None,
                    step: deliver(callback, ViewInput::MouseUp(seen)),
                }
            },
            Some(ViewInput::MouseMove(moved)) => {
                let synthetic_drag: Option<SyntheticDrag> = if moved.pressed_button.is_some()
                    && !self.external_files_dragged {
                    self.synthetic_drag_counter = self.synthetic_drag_counter + 1;
                    Some(SyntheticDrag { drag_id: self.synthetic_drag_counter, event: moved })
                } else {
                    None
                };
                ViewOutcome {
                    show_cursor: true,
                    synthetic_drag,
                    step: deliver(callback, ViewInput::MouseMove(moved)),
                }
            },
            Some(ViewInput::ModifiersChanged(changed)) => {
                let repeated: bool = match self.previous_modifiers_changed_event {
                    Some(previous) => previous == changed,
                    None => false,
                };
                let step: ViewStep = if repeated {
                    ViewStep::Done
                } else {
                    self.previous_modifiers_changed_event = Some(changed);
                    deliver(callback, ViewInput::ModifiersChanged(changed))
                };
                ViewOutcome { show_cursor: false, synthetic_drag: None, step }
            },
            Some(ViewInput::Other(id)) => ViewOutcome {
                show_cursor: false,
                synthetic_drag: None,
                step: deliver(callback, ViewInput::Other(id)),
            },
            Some(event) => ViewOutcome {
                show_cursor: true,
                synthetic_drag: None,
                step: deliver(callback, event),
            },
        }
    }

    /// The next click of the left button is also the focusing click; it is accepted.
    pub fn accepts_first_mouse(&mut self) -> (result: bool)
        ensures
            *final(self) == click_accepted(*old(self)),
            *final(self) == (PointerState { first_mouse: true, ..*old(self) }),
            result,
    {
        self.first_mouse = true;
        true
    }

    /// What a synthetic drag does when its timer fires: while it is the current one it repeats
    /// its move, as far as there is an event callback; then it ends.
    pub fn synthetic_drag_tick(
        &self,
        callback: &mut Option<u64>,
        drag: SyntheticDrag,
    ) -> (result: Option<ViewStep>)
        ensures
            result == drag_tick(*self, *old(callback), drag),
            *final(callback) == match result {
                Some(step) => slot_after(*old(callback), step),
                None => *old(callback),
            },
    {
        if self.synthetic_drag_counter == drag.drag_id {
            Some(deliver(callback, ViewInput::MouseMove(drag.event)))
        } else {
            None
        }
    }

    /// Stops the synthetic drag that is under way: an external drag has begun.
    pub fn external_drag_started(&mut self)
        requires
            old(self).synthetic_drag_counter < usize::MAX,
        ensures
            *final(self) == drag_begun(*old(self)),
            *final(self) == (PointerState {
                synthetic_drag_counter: (old(self).synthetic_drag_counter + 1) as usize,
                ..*old(self)
            }),
    {
        self.synthetic_drag_counter = self.synthetic_drag_counter + 1;
    }

    /// An external drag has ended: the button is no longer down, and no synthetic drag goes on.
    pub fn external_drag_ended(&mut self)
        requires
            old(self).synthetic_drag_counter < usize::MAX,
        ensures
            *final(self) == drag_over(*old(self)),
            *final(self) == (PointerState {
                synthetic_drag_counter: (old(self).synthetic_drag_counter + 1) as usize,
                last_left_mouse_down_event: None,
                ..*old(self)
            }),
    {
        self.synthetic_drag_counter = self.synthetic_drag_counter + 1;
        self.last_left_mouse_down_event = None;
    }
}

/// The pointer state when the next click is to be the focusing one.
pub open spec fn click_accepted(pointer: PointerState) -> PointerState {
    PointerState { first_mouse: true, ..pointer }
}

/// The pointer state when an external drag has begun.
pub open spec fn drag_begun(pointer: PointerState) -> PointerState {
    PointerState {
        synthetic_drag_counter: (pointer.synthetic_drag_counter + 1) as usize,
        ..pointer
    }
}

/// The pointer state when an external drag has ended.
pub open spec fn drag_over(pointer: PointerState) -> PointerState {
    PointerState { last_left_mouse_down_event: None, ..drag_begun(pointer) }
}

/// What a synthetic drag does when its timer fires; `None` when it ends.
pub open spec fn drag_tick(
    pointer: PointerState,
    callback: Option<u64>,
    drag: SyntheticDrag,
) -> Option<ViewStep> {
    if pointer.synthetic_drag_counter == drag.drag_id {
        Some(delivery(callback, ViewInput::MouseMove(drag.event)))
    } else {
        None
    }
}

/// Goes on with an event that the input context has had.
pub fn resume_view_event(callback: &mut Option<u64>, event: ViewInput) -> (step: ViewStep)
    ensures
        step == delivery(*old(callback), event),
        *final(callback) == slot_after(*old(callback), step),
{
    deliver(callback, event)
}

/// The application never sees the left button with control held: presses and releases of a
/// control click both count for the right button, so they match.
pub proof fn control_click_is_a_right_click(event: ViewInput, first_mouse: bool)
    ensures
        match rewritten(event, first_mouse) {
            ViewInput::MouseDown(down) => !(down.button == MouseButton::Left
                && down.modifiers.control),
            ViewInput::MouseUp(up) => !(up.button == MouseButton::Left && up.modifiers.control),
            _ => true,
        },
        is_control_press(event) ==> (rewritten(event, first_mouse)->MouseDown_0.button
            == MouseButton::Right && rewritten(event, first_mouse)->MouseDown_0.position
            == event->MouseDown_0.position),
{
}

/// Rewriting an event twice is rewriting it once.
pub proof fn rewriting_is_idempotent(event: ViewInput, first_mouse: bool)
    ensures
        rewritten(rewritten(event, first_mouse), first_mouse) == rewritten(event, first_mouse),
{
}

/// The focusing click is reported by exactly one press: the first one of the left button without
/// control held. Other events leave the flag as it is.
pub proof fn focusing_click_is_reported_once(
    pointer: PointerState,
    kind: NativeEventKind,
    native_event: u64,
    event: ViewInput,
)
    requires
        pointer.first_mouse,
    ensures
        pointer_after(pointer, kind, native_event, Some(event)).first_mouse == !is_plain_press(
            event,
        ),
        is_plain_press(event) ==> rewritten(event, true)->MouseDown_0.first_mouse,
        !is_plain_press(event) ==> rewritten(event, true) == rewritten(event, false),
{
}

/// Modifiers that have not changed are not reported again, whatever mouse events come in between.
pub proof fn unchanged_modifiers_are_reported_once(
    pointer: PointerState,
    callback: Option<u64>,
    changed: ModifiersChangedEvent,
    kind: NativeEventKind,
    native_event: u64,
    between: ViewInput,
)
    requires
        !(between is ModifiersChanged),
    ensures
        ({
            let event = Some(ViewInput::ModifiersChanged(changed));
            let once = pointer_after(pointer, NativeEventKind::Other, native_event, event);
            let later = pointer_after(once, kind, native_event, Some(between));
            &&& view_outcome(once, callback, event).step is Done
            &&& view_outcome(later, callback, event).step is Done
        }),
{
}

/// A release of the button, and a move with a button down, stop every synthetic drag that was
/// started before, and a move starts one that goes on.
pub proof fn newer_events_stop_synthetic_drags(
    pointer: PointerState,
    callback: Option<u64>,
    kind: NativeEventKind,
    native_event: u64,
    event: ViewInput,
    earlier: SyntheticDrag,
)
    requires
        pointer.synthetic_drag_counter < usize::MAX,
        earlier.drag_id <= pointer.synthetic_drag_counter,
        advances_drag(event, pointer.external_files_dragged),
    ensures
        ({
            let after = pointer_after(pointer, kind, native_event, Some(event));
            &&& drag_tick(after, callback, earlier) is None
            &&& view_outcome(pointer, callback, Some(event)).synthetic_drag matches Some(drag)
                ==> drag.drag_id == after.synthetic_drag_counter && drag_tick(
                after,
                callback,
                drag,
            ) is Some
        }),
{
}

/// The number of the current synthetic drag never decreases, and every drag that is started has a
/// number that no earlier one had.
pub proof fn synthetic_drags_are_numbered_upwards(
    pointer: PointerState,
    callback: Option<u64>,
    kind: NativeEventKind,
    native_event: u64,
    event: Option<ViewInput>,
)
    requires
        pointer.synthetic_drag_counter < usize::MAX,
    ensures
        ({
            let after = pointer_after(pointer, kind, native_event, event);
            &&& pointer.synthetic_drag_counter <= after.synthetic_drag_counter
            &&& view_outcome(pointer, callback, event).synthetic_drag matches Some(drag)
                ==> drag.drag_id > pointer.synthetic_drag_counter
        }),
{
}

/// A release of a button is delivered as it is, unless it is the left button with control held:
/// that one is delivered as a single release of the right button at the same place, with the same
/// modifiers other than control.
pub proof fn releases_are_delivered(pointer: PointerState, callback: u64, up: MouseUpEvent)
    ensures
        ({
            let outcome = view_outcome(pointer, Some(callback), Some(ViewInput::MouseUp(up)));
            let seen = outcome.step->event->MouseUp_0;
            &&& outcome.step is Deliver && outcome.step->callback == callback
            &&& outcome.step->event is MouseUp
            &&& up.button != MouseButton::Left || !up.modifiers.control ==> seen == up
            &&& up.button == MouseButton::Left && up.modifiers.control ==> {
                &&& seen.button == MouseButton::Right
                &&& seen.click_count == 1
                &&& seen.position == up.position
                &&& !seen.modifiers.control
                &&& seen.modifiers.alt == up.modifiers.alt
                &&& seen.modifiers.shift == up.modifiers.shift
                &&& seen.modifiers.platform == up.modifiers.platform
                &&& seen.modifiers.function == up.modifiers.function
            }
        }),
{
}

/// A press goes to the input context and from there to the callback, as it is, with two
/// exceptions: the left button with control held is a single press of the right button at the same
/// place, with the same modifiers other than control; and the left button without control held
/// says that it focused the window, if it did.
pub proof fn presses_are_delivered(
    pointer: PointerState,
    callback: Option<u64>,
    id: u64,
    down: MouseDownEvent,
)
    ensures
        ({
            let outcome = view_outcome(pointer, callback, Some(ViewInput::MouseDown(down)));
            let seen = outcome.step->InputContext_0->MouseDown_0;
            let left = down.button == MouseButton::Left;
            &&& outcome.step is InputContext && outcome.step->InputContext_0 is MouseDown
            &&& outcome.synthetic_drag is None
            &&& delivery(Some(id), ViewInput::MouseDown(seen)) == (ViewStep::Deliver {
                callback: id,
                event: ViewInput::MouseDown(seen),
            })
            &&& seen.position == down.position
            &&& !left ==> seen == down
            &&& left && down.modifiers.control ==> {
                &&& seen.button == MouseButton::Right
                &&& seen.click_count == 1
                &&& seen.first_mouse == down.first_mouse
                &&& !seen.modifiers.control
                &&& seen.modifiers.alt == down.modifiers.alt
                &&& seen.modifiers.shift == down.modifiers.shift
                &&& seen.modifiers.platform == down.modifiers.platform
                &&& seen.modifiers.function == down.modifiers.function
            }
            &&& left && !down.modifiers.control ==> {
                &&& seen.button == MouseButton::Left
                &&& seen.click_count == down.click_count
                &&& seen.modifiers == down.modifiers
                &&& seen.first_mouse == (down.first_mouse || pointer.first_mouse)
            }
        }),
{
}

/// Every event that is neither a press nor a release is delivered as it is, but for modifiers that
/// are the same as when they were reported last. Without a callback nothing is delivered.
pub proof fn other_events_are_delivered_unchanged(
    pointer: PointerState,
    callback: Option<u64>,
    event: ViewInput,
)
    requires
        !(event is MouseDown),
    ensures
        ({
            let step = view_outcome(pointer, callback, Some(event)).step;
            let known = event matches ViewInput::ModifiersChanged(changed)
                && pointer.previous_modifiers_changed_event matches Some(previous)
                && previous.modifiers == changed.modifiers && previous.capslock
                == changed.capslock;
            &&& known || callback is None ==> step == ViewStep::Done
            &&& !known ==> (callback matches Some(id) ==> step is Deliver && step->callback == id)
            &&& !known && callback is Some && !(event is MouseUp) ==> step->event == event
        }),
        view_outcome(pointer, callback, None).step == ViewStep::Done,
        view_outcome(pointer, callback, None).synthetic_drag is None,
        !view_outcome(pointer, callback, None).show_cursor,
{
}

/// The callback is out of its slot exactly while it runs on an event; else the slot is as before.
pub proof fn callback_is_out_exactly_while_it_runs(
    pointer: PointerState,
    callback: Option<u64>,
    event: Option<ViewInput>,
)
    ensures
        ({
            let step = view_outcome(pointer, callback, event).step;
            let slot = slot_after(callback, step);
            &&& step is Deliver ==> slot is None && callback == Some(step->callback)
            &&& !(step is Deliver) ==> slot == callback
        }),
{
}

/// Whatever the mouse does brings the cursor back; a change of modifiers and other events do not.
pub proof fn mouse_brings_the_cursor_back(
    pointer: PointerState,
    callback: Option<u64>,
    event: ViewInput,
)
    ensures
        view_outcome(pointer, callback, Some(event)).show_cursor == (event is MouseDown || event
            is MouseUp || event is MouseMove || event is MousePressure || event is MouseExited
            || event is ScrollWheel || event is Pinch),
{
}

/// A native press of the left button is what an external drag can start from, until the button is
/// released; other native events, and what the host makes of them, change nothing about that.
pub proof fn last_press_is_kept_until_the_release(
    pointer: PointerState,
    kind: NativeEventKind,
    native_event: u64,
    event: Option<ViewInput>,
)
    ensures
        ({
            let after = pointer_after(pointer, kind, native_event, event);
            let last = after.last_left_mouse_down_event;
            &&& kind == NativeEventKind::LeftMouseDown ==> last == Some(native_event)
            &&& kind == NativeEventKind::LeftMouseUp ==> last is None
            &&& kind == NativeEventKind::Other ==> last == pointer.last_left_mouse_down_event
            &&& after.external_files_dragged == pointer.external_files_dragged
            &&& after.previous_modifiers_changed_event == match event {
                Some(ViewInput::ModifiersChanged(changed)) => Some(changed),
                _ => pointer.previous_modifiers_changed_event,
            }
        }),
{
}

/// A click that the window accepted as its first is reported by the next press of the left button
/// without control held, and not by the one after that.
pub proof fn accepted_click_is_reported(
    pointer: PointerState,
    callback: Option<u64>,
    native_event: u64,
    first: MouseDownEvent,
    second: MouseDownEvent,
)
    requires
        first.button == MouseButton::Left && !first.modifiers.control,
        second.button == MouseButton::Left && !second.modifiers.control && !second.first_mouse,
    ensures
        ({
            let kind = NativeEventKind::LeftMouseDown;
            let accepted = click_accepted(pointer);
            let input = Some(ViewInput::MouseDown(first));
            let once = view_outcome(accepted, callback, input);
            let after = pointer_after(accepted, kind, native_event, input);
            let twice = view_outcome(after, callback, Some(ViewInput::MouseDown(second)));
            &&& once.step->InputContext_0->MouseDown_0.first_mouse
            &&& !after.first_mouse
            &&& twice.step->InputContext_0 == ViewInput::MouseDown(second)
            &&& accepted.last_left_mouse_down_event == pointer.last_left_mouse_down_event
            &&& accepted.synthetic_drag_counter == pointer.synthetic_drag_counter
            &&& accepted.external_files_dragged == pointer.external_files_dragged
            &&& accepted.previous_modifiers_changed_event
                == pointer.previous_modifiers_changed_event
        }),
{
}

/// A move with a button down starts a synthetic drag that repeats this very move, unless files are
/// being dragged in; nothing else starts one. Such a move and a release make all earlier drags
/// stale, and nothing else does.
pub proof fn synthetic_drags_repeat_their_move(
    pointer: PointerState,
    callback: Option<u64>,
    kind: NativeEventKind,
    native_event: u64,
    event: ViewInput,
    id: u64,
)
    requires
        pointer.synthetic_drag_counter < usize::MAX,
    ensures
        ({
            let started = view_outcome(pointer, callback, Some(event)).synthetic_drag;
            let before = pointer.synthetic_drag_counter;
            let after = pointer_after(pointer, kind, native_event, Some(event));
            let drags = event matches ViewInput::MouseMove(moved) && moved.pressed_button is Some
                && !pointer.external_files_dragged;
            &&& (started is Some) == drags
            &&& drags ==> started->0.event == event->MouseMove_0
            &&& drags ==> started->0.drag_id == before + 1
            &&& drags ==> drag_tick(after, Some(id), started->0) == Some(
                ViewStep::Deliver { callback: id, event },
            )
            &&& drags ==> drag_tick(after, None, started->0) == Some(ViewStep::Done)
            &&& after.synthetic_drag_counter == if drags || event is MouseUp {
                before + 1
            } else {
                before as int
            }
        }),
{
}

/// When an external drag begins, and when it ends, every synthetic drag stops; when it ends, there
/// is also no press left for another one to start from. Nothing else changes.
pub proof fn external_drags_stop_synthetic_ones(
    pointer: PointerState,
    callback: Option<u64>,
    drag: SyntheticDrag,
)
    requires
        pointer.synthetic_drag_counter < usize::MAX,
        drag.drag_id <= pointer.synthetic_drag_counter,
    ensures
        ({
            let begun = drag_begun(pointer);
            let over = drag_over(pointer);
            &&& drag_tick(begun, callback, drag) is None
            &&& drag_tick(over, callback, drag) is None
            &&& begun.last_left_mouse_down_event == pointer.last_left_mouse_down_event
            &&& over.last_left_mouse_down_event is None
            &&& begun.first_mouse == pointer.first_mouse
            &&& over.first_mouse == pointer.first_mouse
            &&& begun.external_files_dragged == pointer.external_files_dragged
            &&& over.external_files_dragged == pointer.external_files_dragged
            &&& begun.previous_modifiers_changed_event == pointer.previous_modifiers_changed_event
            &&& over.previous_modifiers_changed_event == pointer.previous_modifiers_changed_event
            &&& begun.synthetic_drag_counter == over.synthetic_drag_counter
                == pointer.synthetic_drag_counter + 1
        }),
{
}

/// A new window remembers nothing of the mouse.
pub proof fn new_windows_remember_no_mouse_events()
    ensures
        ({
            let initial = PointerState::initial();
            &&& initial.last_left_mouse_down_event is None
            &&& initial.synthetic_drag_counter == 0
            &&& initial.previous_modifiers_changed_event is None
            &&& !initial.external_files_dragged
            &&& !initial.first_mouse
        }),
{
}

} // verus!
