//! When frames are drawn: the frame source that paces them, frames that AppKit wants at once, and
//! the frame that a window gets when it becomes active again.

use vstd::prelude::*;

verus! {

/// The frame source of a window.
#[derive(Clone, Copy, Debug, PartialEq, Eq, Structural)]
pub enum FrameSource {
    /// Not created yet.
    Absent,
    /// Created, and not asked for frames.
    Stopped,
    /// Asked for frames at the pace of this display.
    Started(u32),
}

/// The messages to the frame source, in the order in which they are sent.
#[derive(Clone, Copy, Debug, PartialEq, Eq, Structural)]
pub struct FrameSourcePlan {
    pub stop: bool,
    pub create: bool,
    pub start: Option<u32>,
}

#[derive(Clone, Copy, Debug, PartialEq, Eq, Structural)]
pub struct FrameRequest {
    /// Draw without what was cached.
    pub force_render: bool,
}

/// A call of the frame callback.
#[derive(Clone, Copy, Debug, PartialEq, Eq, Structural)]
pub struct FrameCall {
    pub callback: u64,
    pub request: FrameRequest,
    /// The frame source is told to stop before the call.
    pub stop_source: bool,
}

/// What is known of the frames of a window.
#[derive(Clone, Copy, Debug, PartialEq, Eq, Structural)]
pub struct FrameState {
    pub source: FrameSource,
    /// The next frame is to be drawn without what was cached.
    pub force_render_pending: bool,
    /// The renderer presents together with the current transaction of the layer tree.
    pub presents_with_transaction: bool,
    /// The window has been active before.
    pub activated_least_once: bool,
}

/// What comes of a change of key status.
#[derive(Clone, Copy, Debug, PartialEq, Eq, Structural)]
pub struct KeyStatusChange {
    /// The cursor is visible again: AppKit unhides it on changes of activation.
    pub show_cursor: bool,
    pub plan: KeyStatusPlan,
}

/// What is done about a change of key status, after the cursor.
#[derive(Clone, Copy, Debug, PartialEq, Eq, Structural)]
pub enum KeyStatusPlan {
    /// The message was spurious: the window resigns key status, and nothing follows.
    Resign,
    /// Accessibility learns of the new focus, [`FrameState::activation_frame`] follows, and
    /// [`deferred_activation`] is put off.
    Changed { focused: bool },
}

/// What is left to do when a change of key status is followed up.
#[derive(Clone, Copy, Debug, PartialEq, Eq, Structural)]
pub struct DeferredActivation {
    pub move_traffic_light: bool,
    /// The callback to call with the new status.
    pub callback: Option<u64>,
}

/// The source after it was told to stop.
pub open spec fn stopped(source: FrameSource) -> FrameSource {
    match source {
        FrameSource::Absent => FrameSource::Absent,
        _ => FrameSource::Stopped,
    }
}

/// The display whose pace frames are to follow: none while the window is hidden, or while AppKit
/// reports no screen for it.
pub open spec fn pace_of(visible: bool, display_id: Option<u32>) -> Option<u32> {
    if visible {
        display_id
    } else {
        None
    }
}

/// The source after it was told to follow the pace of a display.
pub open spec fn restarted(source: FrameSource, pace: Option<u32>) -> FrameSource {
    match pace {
        Some(display_id) => FrameSource::Started(display_id),
        None => stopped(source),
    }
}

/// The messages that make the source follow the pace of a display.
pub open spec fn restart_plan(source: FrameSource, pace: Option<u32>) -> FrameSourcePlan {
    FrameSourcePlan {
        stop: source != FrameSource::Absent,
        create: source == FrameSource::Absent && pace is Some,
        start: pace,
    }
}

/// The frame that is asked of the callback at the pace of the frame source.
pub open spec fn frame_call(state: FrameState, slot: Option<u64>) -> Option<FrameCall> {
    match slot {
        Some(callback) => Some(
            FrameCall {
                callback,
                request: FrameRequest { force_render: state.force_render_pending },
                stop_source: false,
            },
        ),
        None => None,
    }
}

/// The state after the frame source asked for a frame.
pub open spec fn stepped(state: FrameState, slot: Option<u64>) -> FrameState {
    if slot is Some {
        FrameState { force_render_pending: false, ..state }
    } else {
        state
    }
}

/// What is left to do when a change of key status is followed up.
pub open spec fn activation_to_follow(is_active: bool, slot: Option<u64>) -> DeferredActivation {
    DeferredActivation { move_traffic_light: is_active, callback: slot }
}

/// The frame that is asked of the callback at once: the frame source stops for it, if there is
/// one.
pub open spec fn call_at_once(state: FrameState, slot: Option<u64>) -> Option<FrameCall> {
    match frame_call(state, slot) {
        Some(call) => Some(FrameCall { stop_source: state.source != FrameSource::Absent, ..call }),
        None => None,
    }
}

/// The state while a frame is drawn that was asked for outside the pace of the frame source.
pub open spec fn drawing_at_once(state: FrameState, slot: Option<u64>) -> FrameState {
    if slot is Some {
        FrameState {
            source: stopped(state.source),
            force_render_pending: false,
            presents_with_transaction: true,
            ..state
        }
    } else {
        state
    }
}

/// The state after such a frame.
pub open spec fn drawn_at_once(state: FrameState, pace: Option<u32>) -> FrameState {
    FrameState {
        source: restarted(state.source, pace),
        presents_with_transaction: false,
        ..state
    }
}

/// What comes of a change of key status: the cursor is shown in any case, and a window that became
/// key without being the key window resigns.
pub open spec fn key_status_change(became_key: bool, is_active: bool) -> KeyStatusChange {
    KeyStatusChange {
        show_cursor: true,
        plan: if became_key && !is_active {
            KeyStatusPlan::Resign
        } else {
            KeyStatusPlan::Changed { focused: is_active }
        },
    }
}

/// The frame that a change of key status asks of the callback.
pub open spec fn activation_call(
    state: FrameState,
    became_key: bool,
    is_active: bool,
    slot: Option<u64>,
) -> Option<FrameCall> {
    if reactivates(state, became_key, is_active) {
        call_at_once(state, slot)
    } else {
        None
    }
}

/// The state after a change of key status, while that frame is drawn.
pub open spec fn activated(
    state: FrameState,
    became_key: bool,
    is_active: bool,
    slot: Option<u64>,
) -> FrameState {
    if reactivates(state, became_key, is_active) {
        drawing_at_once(state, slot)
    } else {
        FrameState {
            activated_least_once: state.activated_least_once || (became_key && is_active),
            ..state
        }
    }
}

/// Whether a change of key status is an activation that is not the first one.
pub open spec fn reactivates(state: FrameState, became_key: bool, is_active: bool) -> bool {
    became_key && is_active && state.activated_least_once
}

impl FrameState {
    pub open spec fn initial() -> FrameState {
        FrameState {
            source: FrameSource::Absent,
            force_render_pending: false,
            presents_with_transaction: false,
            activated_least_once: false,
        }
    }

    /// A window that has drawn nothing.
    pub fn new() -> (result: FrameState)
        ensures
            result == FrameState::initial(),
    {
        FrameState {
            source: FrameSource::Absent,
            force_render_pending: false,
            presents_with_transaction: false,
            activated_least_once: false,
        }
    }

    /// Takes the options of the next frame.
    pub fn next_frame_request(&mut self) -> (request: FrameRequest)
        ensures
            (request, *final(self)) == frame_requested(*old(self)),
            request == (FrameRequest { force_render: old(self).force_render_pending }),
            *final(self) == (FrameState { force_render_pending: false, ..*old(self) }),
    {
        let force_render = self.force_render_pending;
        self.force_render_pending = false;
        FrameRequest { force_render }
    }

    /// Stops the frame source. Says whether there is one to send the message to.
    pub fn stop_display_link(&mut self) -> (stop: bool)
        ensures
            (stop, *final(self)) == link_stopped(*old(self)),
            stop == (old(self).source != FrameSource::Absent),
            *final(self) == (FrameState { source: stopped(old(self).source), ..*old(self) }),
    {
        match self.source {
            FrameSource::Absent => false,
            FrameSource::Stopped => true,
            FrameSource::Started(_) => {
                self.source = FrameSource::Stopped;
                true
            },
        }
    }

    /// Makes the frame source follow the display of the window, if the window is visible and on a
    /// display; else stops it.
    pub fn start_display_link(&mut self, visible: bool, display_id: Option<u32>) -> (plan:
        FrameSourcePlan)
        ensures
            (plan, *final(self)) == link_started(*old(self), visible, display_id),
            plan == restart_plan(old(self).source, pace_of(visible, display_id)),
            *final(self) == (FrameState {
                source: restarted(old(self).source, pace_of(visible, display_id)),
                ..*old(self)
            }),
    {
        let stop = self.stop_display_link();
        let mut plan: FrameSourcePlan = FrameSourcePlan { stop, create: false, start: None };
        if visible {
            if let Some(display_id) = display_id {
                plan.create = !stop;
                plan.start = Some(display_id);
                self.source = FrameSource::Started(display_id);
            }
        }
        plan
    }

    /// The frame source asks for a frame. The callback is put back into its slot when it has run.
    pub fn step(&mut self, slot: &mut Option<u64>) -> (call: Option<FrameCall>)
        ensures
            call == frame_call(*old(self), *old(slot)),
            *final(slot) is None,
            *final(self) == stepped(*old(self), *old(slot)),
            *final(self) == (FrameState {
                force_render_pending: old(self).force_render_pending && *old(slot) is None,
                ..*old(self)
            }),
    {
        match slot.take() {
            Some(callback) => Some(
                FrameCall { callback, request: self.next_frame_request(), stop_source: false },
            ),
            None => None,
        }
    }

    /// AppKit asks for a frame at once. [`FrameState::finish_display_layer`] follows when the
    /// callback has run.
    pub fn display_layer(&mut self, slot: &mut Option<u64>) -> (call: Option<FrameCall>)
        ensures
            call == call_at_once(*old(self), *old(slot)),
            *final(slot) is None,
            *final(self) == drawing_at_once(*old(self), *old(slot)),
    {
        match slot.take() {
            Some(callback) => {
                self.presents_with_transaction = true;
                let stop_source = self.stop_display_link();
                Some(FrameCall { callback, request: self.next_frame_request(), stop_source })
            },
            None => None,
        }
    }

    /// The callback has drawn a frame that was asked for at once.
    pub fn finish_display_layer(
        &mut self,
        slot: &mut Option<u64>,
        callback: u64,
        visible: bool,
        display_id: Option<u32>,
    ) -> (plan: FrameSourcePlan)
        ensures
            *final(slot) == Some(callback),
            plan == restart_plan(old(self).source, pace_of(visible, display_id)),
            *final(self) == drawn_at_once(*old(self), pace_of(visible, display_id)),
    {
        *slot = Some(callback);
        self.presents_with_transaction = false;
        self.start_display_link(visible, display_id)
    }

    /// The frame that a window gets when it becomes active again, without which native tabs
    /// flicker. The first activation gets none: the initial focus has to be established first.
    pub fn activation_frame(
        &mut self,
        became_key: bool,
        is_active: bool,
        slot: &mut Option<u64>,
    ) -> (call: Option<FrameCall>)
        ensures
            call == activation_call(*old(self), became_key, is_active, *old(slot)),
            *final(self) == activated(*old(self), became_key, is_active, *old(slot)),
            *final(slot) == if reactivates(*old(self), became_key, is_active) {
                None
            } else {
                *old(slot)
            },
    {
        if became_key && is_active {
            if self.activated_least_once {
                return self.display_layer(slot);
            }
            self.activated_least_once = true;
        }
        None
    }
}

/// What a change of key status comes to. When a pop-up opens while the application is not active,
/// AppKit tells the window that was key before that it became key though it did not: that message
/// is balanced by resigning.
pub fn window_did_change_key_status(became_key: bool, is_active: bool) -> (change: KeyStatusChange)
    ensures
        change == key_status_change(became_key, is_active),
        change.show_cursor,
{
    KeyStatusChange {
        show_cursor: true,
        plan: if became_key && !is_active {
            KeyStatusPlan::Resign
        } else {
            KeyStatusPlan::Changed { focused: is_active }
        },
    }
}

/// Follows up a change of key status. The callback is put back into its slot when it has run.
pub fn deferred_activation(is_active: bool, slot: &mut Option<u64>) -> (result: DeferredActivation)
    ensures
        result == activation_to_follow(is_active, *old(slot)),
        result == (DeferredActivation { move_traffic_light: is_active, callback: *old(slot) }),
        *final(slot) is None,
{
    DeferredActivation { move_traffic_light: is_active, callback: slot.take() }
}

/// A window that becomes key shows the cursor. If it is not the key window it resigns, asks for no
/// frame and does not count as activated; the first activation is remembered and asks for no
/// frame; every later one asks for exactly one frame, if there is a callback, and is otherwise
/// without a trace once that is drawn.
pub proof fn becoming_key_draws_from_the_second_time_on(
    state: FrameState,
    is_active: bool,
    slot: Option<u64>,
    pace: Option<u32>,
)
    requires
        !state.presents_with_transaction,
    ensures
        ({
            let change = key_status_change(true, is_active);
            let call = activation_call(state, true, is_active, slot);
            let after = activated(state, true, is_active, slot);
            &&& change.show_cursor
            &&& !is_active ==> change.plan == KeyStatusPlan::Resign && call is None && after
                == state
            &&& is_active ==> change.plan == (KeyStatusPlan::Changed { focused: true })
            &&& is_active && !state.activated_least_once ==> call is None && after
                == (FrameState { activated_least_once: true, ..state })
            &&& is_active && state.activated_least_once ==> {
                &&& (call is Some) == (slot is Some)
                &&& slot matches Some(callback) ==> call->0.callback == callback && drawn_at_once(
                    after,
                    pace,
                ) == (FrameState {
                    source: restarted(state.source, pace),
                    force_render_pending: false,
                    ..state
                })
            }
        }),
{
}

/// Frames are asked of the source exactly while the window is visible and on a display, and the
/// source is created once and for all.
pub proof fn source_follows_the_window(
    source: FrameSource,
    visible: bool,
    display_id: Option<u32>,
    later_visible: bool,
    later_display_id: Option<u32>,
)
    ensures
        ({
            let pace = pace_of(visible, display_id);
            let after = restarted(source, pace);
            &&& (after is Started) == (visible && display_id is Some)
            &&& after is Started ==> after->0 == display_id->0
            &&& restart_plan(source, pace).create ==> !restart_plan(
                after,
                pace_of(later_visible, later_display_id),
            ).create
        }),
{
}

/// A frame that is drawn at once leaves nothing behind: the callback is registered again, the
/// renderer presents on its own, frames are paced again, and no forced frame is pending.
pub proof fn frame_at_once_leaves_nothing_behind(
    state: FrameState,
    callback: u64,
    visible: bool,
    display_id: Option<u32>,
)
    requires
        !state.presents_with_transaction,
    ensures
        ({
            let pace = pace_of(visible, display_id);
            let after = drawn_at_once(drawing_at_once(state, Some(callback)), pace);
            after == FrameState {
                source: restarted(state.source, pace),
                force_render_pending: false,
                ..state
            }
        }),
{
}

/// A forced frame is asked for once: the frame after it is an ordinary one.
pub proof fn forced_frame_is_asked_for_once(state: FrameState, callback: u64, next: u64)
    ensures
        ({
            let first = frame_call(state, Some(callback));
            let second = frame_call(drawing_at_once(state, Some(callback)), Some(next));
            &&& first is Some && first->0.request.force_render == state.force_render_pending
            &&& second is Some && !second->0.request.force_render
        }),
{
}

/// A frame is asked for exactly if there is a callback, of that callback, and forced exactly if one
/// was to be; the wish is then fulfilled, and kept if nobody could be asked. The frame source goes
/// on while it paces the frames, and stops for a frame at once, if there is one.
pub proof fn frames_are_asked_of_the_callback(state: FrameState, slot: Option<u64>)
    ensures
        ({
            let paced = frame_call(state, slot);
            let at_once = call_at_once(state, slot);
            let after = stepped(state, slot);
            let during = drawing_at_once(state, slot);
            &&& slot is None ==> paced is None && at_once is None && after == state && during
                == state
            &&& slot matches Some(callback) ==> {
                &&& paced is Some && at_once is Some
                &&& paced->0.callback == callback && at_once->0.callback == callback
                &&& paced->0.request.force_render == state.force_render_pending
                &&& at_once->0.request.force_render == state.force_render_pending
                &&& !paced->0.stop_source
                &&& at_once->0.stop_source == (state.source != FrameSource::Absent)
                &&& !after.force_render_pending && !during.force_render_pending
                &&& after.source == state.source
                &&& after.presents_with_transaction == state.presents_with_transaction
                &&& during.presents_with_transaction
                &&& !(during.source is Started)
                &&& (during.source is Absent) == (state.source is Absent)
                &&& after.activated_least_once == state.activated_least_once
                &&& during.activated_least_once == state.activated_least_once
            }
        }),
{
}

/// The source is stopped before anything else, if there is one; it is made when there is none and
/// frames are to be paced; and it is started at the pace of the display of a visible window.
pub proof fn source_is_told_what_the_window_needs(
    source: FrameSource,
    visible: bool,
    display_id: Option<u32>,
)
    ensures
        ({
            let pace = pace_of(visible, display_id);
            let plan = restart_plan(source, pace);
            let after = restarted(source, pace);
            &&& plan.stop == (source != FrameSource::Absent)
            &&& plan.start is Some <==> visible && display_id is Some
            &&& plan.start matches Some(display) ==> display_id == Some(display) && after
                == FrameSource::Started(display)
            &&& plan.create == (source == FrameSource::Absent && visible && display_id is Some)
            &&& plan.start is None && source == FrameSource::Absent ==> after
                == FrameSource::Absent
            &&& plan.start is None && source != FrameSource::Absent ==> after
                == FrameSource::Stopped
            &&& stopped(source) == FrameSource::Absent <==> source == FrameSource::Absent
            &&& !(stopped(source) is Started)
        }),
{
}

/// Every change of key status shows the cursor. It is told as it is, except that a window which
/// became key and is not active resigns. It is followed up by moving the traffic lights of an
/// active window and by telling the application, if it wants to know.
pub proof fn key_status_is_told(became_key: bool, is_active: bool, slot: Option<u64>)
    ensures
        ({
            let change = key_status_change(became_key, is_active);
            let later = activation_to_follow(is_active, slot);
            &&& change.show_cursor
            &&& change.plan == KeyStatusPlan::Resign <==> became_key && !is_active
            &&& change.plan is Changed ==> change.plan->focused == is_active
            &&& later.move_traffic_light == is_active
            &&& later.callback == slot
        }),
{
}

/// A window that does not become key, or is not active, draws nothing on that account and does not
/// count as activated.
pub proof fn only_activations_draw(
    state: FrameState,
    became_key: bool,
    is_active: bool,
    slot: Option<u64>,
)
    requires
        !became_key || !is_active,
    ensures
        activation_call(state, became_key, is_active, slot) is None,
        activated(state, became_key, is_active, slot) == state,
{
}

/// A new window has drawn nothing, has no frame source and wants no frame.
pub proof fn new_windows_have_drawn_nothing()
    ensures
        ({
            let initial = FrameState::initial();
            &&& initial.source == FrameSource::Absent
            &&& !initial.force_render_pending
            &&& !initial.presents_with_transaction
            &&& !initial.activated_least_once
        }),
{
}

/// The options of the next frame, and the state when they have been taken.
pub open spec fn frame_requested(state: FrameState) -> (FrameRequest, FrameState) {
    (
        FrameRequest { force_render: state.force_render_pending },
        FrameState { force_render_pending: false, ..state },
    )
}

/// Whether there is a frame source to stop, and the state when it has been stopped.
pub open spec fn link_stopped(state: FrameState) -> (bool, FrameState) {
    (
        state.source != FrameSource::Absent,
        FrameState { source: stopped(state.source), ..state },
    )
}

/// How the frame source starts to follow the window, and the state after that.
pub open spec fn link_started(
    state: FrameState,
    visible: bool,
    display_id: Option<u32>,
) -> (FrameSourcePlan, FrameState) {
    let pace = pace_of(visible, display_id);
    (
        restart_plan(state.source, pace),
        FrameState { source: restarted(state.source, pace), ..state },
    )
}

/// A frame that has to be drawn is asked for once: the next request forces it, and the one after
/// that does not. Nothing else changes.
pub proof fn frames_are_forced_once(state: FrameState)
    ensures
        ({
            let (first, after) = frame_requested(state);
            let (second, last) = frame_requested(after);
            &&& first.force_render == state.force_render_pending
            &&& !second.force_render
            &&& last == after
            &&& after.source == state.source
            &&& after.presents_with_transaction == state.presents_with_transaction
            &&& after.activated_least_once == state.activated_least_once
        }),
{
}

/// The frame source runs exactly while the window is visible on a display, and then at the pace of
/// that display; a stopped one does not run. One that exists is stopped before anything else, and
/// is not made again. Only the frame source changes.
pub proof fn frame_sources_run_while_visible(
    state: FrameState,
    visible: bool,
    display_id: Option<u32>,
)
    ensures
        ({
            let (plan, started) = link_started(state, visible, display_id);
            let (stop, idle) = link_stopped(state);
            &&& (started.source is Started) == (visible && display_id is Some)
            &&& started.source is Started ==> started.source == FrameSource::Started(display_id->0)
            &&& plan.start == if visible {
                display_id
            } else {
                None
            }
            &&& plan.stop == stop && stop == (state.source != FrameSource::Absent)
            &&& plan.create == (plan.start is Some && !stop)
            &&& !(idle.source is Started)
            &&& (idle.source == FrameSource::Absent) == !stop
            &&& FrameState { source: state.source, ..started } == state
            &&& FrameState { source: state.source, ..idle } == state
        }),
{
}

} // verus!
