use mac_window::geometry::Point;
use mac_window::keyboard::Modifiers;
use mac_window::pointer::{
    resume_view_event, ModifiersChangedEvent, MouseButton, MouseDownEvent, MouseMoveEvent,
    MouseUpEvent, NativeEventKind, PointerState, ViewInput, ViewStep,
};

const AT: Point = Point { x: 10, y: 20 };

fn control(held: bool) -> Modifiers {
    Modifiers {
        control: held,
        ..Modifiers::from_flags(0)
    }
}

fn down(button: MouseButton, modifiers: Modifiers) -> MouseDownEvent {
    MouseDownEvent {
        button,
        position: AT,
        modifiers,
        click_count: 3,
        first_mouse: false,
    }
}

fn up(modifiers: Modifiers) -> ViewInput {
    ViewInput::MouseUp(MouseUpEvent {
        button: MouseButton::Left,
        position: AT,
        modifiers,
        click_count: 3,
    })
}

fn moved(pressed_button: Option<MouseButton>) -> ViewInput {
    ViewInput::MouseMove(MouseMoveEvent {
        position: AT,
        pressed_button,
        modifiers: control(false),
    })
}

fn handle(
    pointer: &mut PointerState,
    callback: &mut Option<u64>,
    event: ViewInput,
) -> mac_window::pointer::ViewOutcome {
    pointer.handle_view_event(callback, NativeEventKind::Other, 99, Some(event))
}

#[test]
fn control_click_becomes_a_right_click() {
    let mut pointer = PointerState::new();
    let mut callback = Some(1);
    let press = ViewInput::MouseDown(down(MouseButton::Left, control(true)));
    let seen = ViewInput::MouseDown(MouseDownEvent {
        button: MouseButton::Right,
        modifiers: control(false),
        click_count: 1,
        ..down(MouseButton::Left, control(true))
    });
    let outcome = handle(&mut pointer, &mut callback, press);
    assert_eq!(outcome.step, ViewStep::InputContext(seen));
    assert!(outcome.show_cursor);
    assert_eq!(callback, Some(1));
    let step = resume_view_event(&mut callback, seen);
    assert_eq!(step, ViewStep::Deliver { callback: 1, event: seen });
    assert_eq!(callback, None);

    let mut callback = Some(1);
    let outcome = handle(&mut pointer, &mut callback, up(control(true)));
    match outcome.step {
        ViewStep::Deliver {
            event: ViewInput::MouseUp(event),
            ..
        } => {
            assert_eq!(event.button, MouseButton::Right);
            assert!(!event.modifiers.control);
            assert_eq!(event.click_count, 1);
        }
        step => panic!("{step:?}"),
    }
}

#[test]
fn focusing_click_is_marked_once() {
    let mut pointer = PointerState::new();
    let mut callback = Some(1);
    assert!(pointer.accepts_first_mouse());
    let press = down(MouseButton::Left, control(false));
    let right = ViewInput::MouseDown(down(MouseButton::Right, control(false)));
    let outcome = handle(&mut pointer, &mut callback, right);
    assert_eq!(outcome.step, ViewStep::InputContext(right));
    let outcome = handle(&mut pointer, &mut callback, ViewInput::MouseDown(press));
    let marked = MouseDownEvent {
        first_mouse: true,
        ..press
    };
    assert_eq!(outcome.step, ViewStep::InputContext(ViewInput::MouseDown(marked)));
    let outcome = handle(&mut pointer, &mut callback, ViewInput::MouseDown(press));
    assert_eq!(outcome.step, ViewStep::InputContext(ViewInput::MouseDown(press)));
}

#[test]
fn unchanged_modifiers_are_dropped() {
    let mut pointer = PointerState::new();
    let changed = |capslock| {
        ViewInput::ModifiersChanged(ModifiersChangedEvent {
            modifiers: control(true),
            capslock,
        })
    };
    let mut callback = Some(1);
    let outcome = handle(&mut pointer, &mut callback, changed(false));
    assert!(!outcome.show_cursor);
    assert_eq!(outcome.step, ViewStep::Deliver { callback: 1, event: changed(false) });
    callback = Some(1);
    handle(&mut pointer, &mut callback, moved(None));
    callback = Some(1);
    assert_eq!(handle(&mut pointer, &mut callback, changed(false)).step, ViewStep::Done);
    assert_eq!(callback, Some(1));
    let outcome = handle(&mut pointer, &mut callback, changed(true));
    assert_eq!(outcome.step, ViewStep::Deliver { callback: 1, event: changed(true) });
}

#[test]
fn synthetic_drag_goes_on_until_the_mouse_moves_or_is_released() {
    let mut pointer = PointerState::new();
    let mut callback = None;
    let held = moved(Some(MouseButton::Left));
    let first = handle(&mut pointer, &mut callback, held).synthetic_drag.expect("a drag");
    assert_eq!(first.drag_id, 1);
    let mut slot = Some(5);
    assert_eq!(
        pointer.synthetic_drag_tick(&mut slot, first),
        Some(ViewStep::Deliver { callback: 5, event: held })
    );
    assert_eq!(slot, None);
    assert_eq!(pointer.synthetic_drag_tick(&mut slot, first), Some(ViewStep::Done));

    let second = handle(&mut pointer, &mut callback, held).synthetic_drag.expect("a drag");
    assert_eq!(second.drag_id, 2);
    assert_eq!(pointer.synthetic_drag_tick(&mut slot, first), None);
    handle(&mut pointer, &mut callback, moved(None));
    assert!(pointer.synthetic_drag_tick(&mut slot, second).is_some());
    handle(&mut pointer, &mut callback, up(control(false)));
    assert_eq!(pointer.synthetic_drag_tick(&mut slot, second), None);
}

#[test]
fn dragged_files_start_no_synthetic_drag() {
    let mut pointer = PointerState {
        external_files_dragged: true,
        ..PointerState::new()
    };
    let outcome = handle(&mut pointer, &mut None, moved(Some(MouseButton::Left)));
    assert_eq!(outcome.synthetic_drag, None);
    assert_eq!(pointer.synthetic_drag_counter, 0);
}

#[test]
fn external_drags_stop_the_synthetic_one() {
    let mut pointer = PointerState::new();
    let drag = handle(&mut pointer, &mut None, moved(Some(MouseButton::Left)))
        .synthetic_drag
        .expect("a drag");
    pointer.external_drag_started();
    assert_eq!(pointer.synthetic_drag_tick(&mut None, drag), None);
    assert_eq!(pointer.synthetic_drag_counter, 2);
}

#[test]
fn left_press_is_remembered_until_the_release() {
    let mut pointer = PointerState::new();
    let press = Some(ViewInput::MouseDown(down(MouseButton::Left, control(false))));
    pointer.handle_view_event(&mut None, NativeEventKind::LeftMouseDown, 41, press);
    assert_eq!(pointer.last_left_mouse_down_event, Some(41));
    handle(&mut pointer, &mut None, moved(None));
    assert_eq!(pointer.last_left_mouse_down_event, Some(41));
    pointer.handle_view_event(&mut None, NativeEventKind::LeftMouseUp, 42, None);
    assert_eq!(pointer.last_left_mouse_down_event, None);
}

#[test]
fn other_events_pass_unchanged() {
    let mut pointer = PointerState::new();
    for (event, shows_cursor) in [
        (ViewInput::ScrollWheel(4), true),
        (ViewInput::Pinch(4), true),
        (ViewInput::MousePressure(4), true),
        (ViewInput::MouseExited(4), true),
        (ViewInput::Other(4), false),
    ] {
        let outcome = handle(&mut pointer, &mut Some(8), event);
        assert_eq!(outcome.show_cursor, shows_cursor);
        assert_eq!(outcome.step, ViewStep::Deliver { callback: 8, event });
    }
    let outcome = pointer.handle_view_event(&mut Some(8), NativeEventKind::Other, 1, None);
    assert_eq!(outcome.step, ViewStep::Done);
    assert!(!outcome.show_cursor);
}

#[test]
fn rewritten_event_is_not_rewritten_again() {
    let mut pointer = PointerState::new();
    let press = ViewInput::MouseDown(down(MouseButton::Left, control(true)));
    let ViewStep::InputContext(once) = handle(&mut pointer, &mut None, press).step else {
        panic!("no press");
    };
    let outcome = handle(&mut pointer, &mut None, once);
    assert_eq!(outcome.step, ViewStep::InputContext(once));
}
