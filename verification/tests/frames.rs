use mac_window::callbacks::{
    begin_callback, finish_callback, if_window_not_closed, run_unless_closed, window_should_close,
    Callbacks, CloseRequest,
};
use mac_window::frames::{
    deferred_activation, window_did_change_key_status, DeferredActivation, FrameCall, FrameRequest,
    FrameSource, FrameSourcePlan, FrameState, KeyStatusPlan,
};
use std::sync::atomic::AtomicBool;
use std::sync::Arc;

#[test]
fn frame_source_follows_the_display() {
    let mut frames = FrameState::new();
    let plan = |stop, create, start| FrameSourcePlan {
        stop,
        create,
        start,
    };
    assert_eq!(frames.start_display_link(false, Some(4)), plan(false, false, None));
    assert_eq!(frames.source, FrameSource::Absent);
    assert_eq!(frames.start_display_link(true, None), plan(false, false, None));
    assert_eq!(frames.start_display_link(true, Some(4)), plan(false, true, Some(4)));
    assert_eq!(frames.source, FrameSource::Started(4));
    assert_eq!(frames.start_display_link(true, Some(5)), plan(true, false, Some(5)));
    assert_eq!(frames.start_display_link(true, None), plan(true, false, None));
    assert_eq!(frames.source, FrameSource::Stopped);
    assert!(frames.stop_display_link());
    assert!(!FrameState::new().stop_display_link());
}

#[test]
fn forced_frame_is_requested_once() {
    let mut frames = FrameState {
        force_render_pending: true,
        ..FrameState::new()
    };
    let mut slot = None;
    assert_eq!(frames.step(&mut slot), None);
    assert!(frames.force_render_pending);
    slot = Some(2);
    assert_eq!(
        frames.step(&mut slot),
        Some(FrameCall {
            callback: 2,
            request: FrameRequest { force_render: true },
            stop_source: false,
        })
    );
    assert_eq!(slot, None);
    assert_eq!(frames.next_frame_request(), FrameRequest { force_render: false });
}

#[test]
fn frame_at_once_interrupts_the_frame_source() {
    let mut frames = FrameState {
        source: FrameSource::Started(4),
        ..FrameState::new()
    };
    let mut slot = Some(2);
    let call = frames.display_layer(&mut slot).expect("a frame");
    assert_eq!(call.callback, 2);
    assert!(call.stop_source);
    assert_eq!(frames.source, FrameSource::Stopped);
    assert!(frames.presents_with_transaction);
    assert_eq!(frames.display_layer(&mut slot), None);
    let plan = frames.finish_display_layer(&mut slot, 2, true, Some(4));
    assert_eq!(plan.start, Some(4));
    assert_eq!(slot, Some(2));
    assert_eq!(
        frames,
        FrameState {
            source: FrameSource::Started(4),
            ..FrameState::new()
        }
    );
}

#[test]
fn second_activation_draws_at_once() {
    let mut frames = FrameState::new();
    let mut slot = Some(2);
    assert_eq!(frames.activation_frame(true, true, &mut slot), None);
    assert!(frames.activated_least_once);
    assert_eq!(frames.activation_frame(false, false, &mut slot), None);
    assert_eq!(slot, Some(2));
    let call = frames.activation_frame(true, true, &mut slot).expect("a frame");
    assert!(!call.stop_source);
    assert_eq!(slot, None);
    assert_eq!(frames.activation_frame(true, true, &mut slot), None);
    frames.finish_display_layer(&mut slot, call.callback, true, Some(1));
    assert_eq!(slot, Some(2));
    let mut spurious = FrameState::new();
    assert_eq!(spurious.activation_frame(true, false, &mut slot), None);
    assert_eq!(spurious, FrameState::new());
}

#[test]
fn spurious_key_status_is_resigned() {
    for (became_key, is_active, plan) in [
        (true, false, KeyStatusPlan::Resign),
        (true, true, KeyStatusPlan::Changed { focused: true }),
        (false, false, KeyStatusPlan::Changed { focused: false }),
        (false, true, KeyStatusPlan::Changed { focused: true }),
    ] {
        let change = window_did_change_key_status(became_key, is_active);
        assert_eq!(change.plan, plan);
        assert!(change.show_cursor);
    }
    let mut slot = Some(6);
    assert_eq!(
        deferred_activation(true, &mut slot),
        DeferredActivation {
            move_traffic_light: true,
            callback: Some(6)
        }
    );
    assert_eq!(slot, None);
}

#[test]
fn callbacks_are_taken_while_they_run() {
    let mut callbacks = Callbacks::new();
    assert_eq!(begin_callback(&mut callbacks.moved), None);
    callbacks.moved = Some(1);
    let running = begin_callback(&mut callbacks.moved).expect("the callback");
    assert_eq!(begin_callback(&mut callbacks.moved), None);
    finish_callback(&mut callbacks.moved, running);
    assert_eq!(callbacks.moved, Some(1));
}

#[test]
fn closing_is_asked_for() {
    let mut slot = None;
    assert_eq!(window_should_close(&mut slot), CloseRequest::Close);
    slot = Some(3);
    assert_eq!(window_should_close(&mut slot), CloseRequest::Ask(3));
    assert_eq!(slot, None);
}

#[test]
fn tasks_skip_closed_windows() {
    let mut runs = 0;
    assert!(run_unless_closed(false, || runs += 1));
    assert!(!run_unless_closed(true, || runs += 1));
    let open = Arc::new(AtomicBool::new(false));
    assert!(if_window_not_closed(open, || runs += 1));
    let closed = Arc::new(AtomicBool::new(true));
    assert!(!if_window_not_closed(closed, || runs += 1));
    assert_eq!(runs, 2);
}
