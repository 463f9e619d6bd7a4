//! Drags over a window, of files and of custom payloads, and the end of the drags that it
//! started itself.

use vstd::prelude::*;
use vstd::utf8::{decode_utf8, encode_utf8, valid_utf8};

use crate::drag_payload::{decode_custom_drag_payload, decode_inverts_encode};
use crate::drag_payload::{decoded_payload, encoded_payload};
use crate::external_drag::{declined, dragging_items, ExternalDragPayload};
use crate::external_paths::{decoded_paths, external_paths_from_event, ExternalPaths};
use crate::geometry::{convert_mouse_position, converted_position};
use crate::geometry::{outside_frame, position_on_screen, released_outside, screen_position_of};
use crate::geometry::{close, everyday_point, everyday_rect, fits, magnitude};
use crate::geometry::{mouse_positions_count_from_the_top_up_to_rounding, outside_is_beyond_an_edge};
use crate::geometry::screen_positions_measure_from_the_top_left;
use crate::geometry::{Pixels, Point, Rect};
use crate::pointer::{drag_over, PointerState};
use crate::rounding::is_everyday;

verus! {

pub const DRAG_OPERATION_NONE: u64 = 0;

pub const DRAG_OPERATION_COPY: u64 = 1;

pub const DRAG_OPERATION_MOVE: u64 = 16;

pub const DRAGGING_CONTEXT_OUTSIDE_APPLICATION: i64 = 0;

pub const DRAGGING_CONTEXT_WITHIN_APPLICATION: i64 = 1;

/// The formation in which dragged images stay where they were put.
pub const DRAGGING_FORMATION_NONE: i64 = 1;

/// The pasteboard type of file names.
pub fn filenames_pboard_type() -> (name: &'static str)
    ensures
        name@ == "NSFilenamesPboardType"@,
{
    "NSFilenamesPboardType"
}

/// The pasteboard type of custom drags.
pub fn custom_drag_pboard_type() -> (name: &'static str)
    ensures
        name@ == "org.gpui.custom-drag"@,
{
    "org.gpui.custom-drag"
}

/// The pasteboard types of the drags that a window accepts.
pub open spec fn accepted_types() -> Seq<Seq<char>> {
    seq!["NSFilenamesPboardType"@, "org.gpui.custom-drag"@]
}

/// Lists [`accepted_types`].
pub fn dragged_types() -> (types: Vec<&'static str>)
    ensures
        types@.map_values(|name: &'static str| name@) == accepted_types(),
{
    let mut types: Vec<&'static str> = Vec::new();
    types.push(filenames_pboard_type());
    types.push(custom_drag_pboard_type());
    assert(types@.map_values(|name: &'static str| name@) =~= accepted_types());
    types
}

/// An event of a custom drag.
pub enum CustomDragEvent {
    Entered { position: Point, drag_type: String, data: Vec<u8> },
    Pending { position: Point },
    Submit { position: Point, drag_type: String, data: Vec<u8> },
    Exited,
    /// A drag that this window started has ended.
    Ended { operation: u64, outside_window: bool, position: Point },
}

/// An event of a drag of files.
pub enum FileDropEvent {
    Entered { position: Point, paths: ExternalPaths },
    Pending { position: Point },
    Submit { position: Point },
    Exited,
    /// A drag that this window started has ended.
    Ended,
}

/// An event of a drag.
pub enum DragInput {
    Custom(CustomDragEvent),
    Files(FileDropEvent),
}

/// The view of a [`DragInput`].
pub enum DragInputView {
    CustomEntered { position: Point, drag_type: Seq<char>, data: Seq<u8> },
    CustomPending { position: Point },
    CustomSubmit { position: Point, drag_type: Seq<char>, data: Seq<u8> },
    CustomExited,
    CustomEnded { operation: u64, outside_window: bool, position: Point },
    FilesEntered { position: Point, paths: Seq<Seq<char>> },
    FilesPending { position: Point },
    FilesSubmit { position: Point },
    FilesExited,
    FilesEnded,
}

impl View for DragInput {
    type V = DragInputView;

    open spec fn view(&self) -> DragInputView {
        match *self {
            DragInput::Custom(CustomDragEvent::Entered { position, drag_type, data }) =>
                DragInputView::CustomEntered { position, drag_type: drag_type@, data: data@ },
            DragInput::Custom(CustomDragEvent::Pending { position }) =>
                DragInputView::CustomPending { position },
            DragInput::Custom(CustomDragEvent::Submit { position, drag_type, data }) =>
                DragInputView::CustomSubmit { position, drag_type: drag_type@, data: data@ },
            DragInput::Custom(CustomDragEvent::Exited) => DragInputView::CustomExited,
            DragInput::Custom(CustomDragEvent::Ended { operation, outside_window, position }) =>
                DragInputView::CustomEnded { operation, outside_window, position },
            DragInput::Files(FileDropEvent::Entered { position, paths }) =>
                DragInputView::FilesEntered { position, paths: paths@ },
            DragInput::Files(FileDropEvent::Pending { position }) =>
                DragInputView::FilesPending { position },
            DragInput::Files(FileDropEvent::Submit { position }) =>
                DragInputView::FilesSubmit { position },
            DragInput::Files(FileDropEvent::Exited) => DragInputView::FilesExited,
            DragInput::Files(FileDropEvent::Ended) => DragInputView::FilesEnded,
        }
    }
}

/// What AppKit says of a drag over a window.
pub struct DragInfo {
    /// What started the drag, if this application did.
    pub source: Option<u64>,
    /// Where the pointer is, relative to the bottom-left corner of the window.
    pub location: Point,
    /// The pasteboard's data for custom drags.
    pub custom_data: Option<Vec<u8>>,
    /// The file names on the pasteboard, in UTF-8.
    pub filenames: Option<Vec<Vec<u8>>>,
}

/// The view of a [`DragInfo`].
pub struct DragInfoView {
    pub source: Option<u64>,
    pub location: Point,
    pub custom_data: Option<Seq<u8>>,
    pub paths: Option<Seq<Seq<char>>>,
}

impl View for DragInfo {
    type V = DragInfoView;

    open spec fn view(&self) -> DragInfoView {
        DragInfoView {
            source: self.source,
            location: self.location,
            custom_data: match self.custom_data {
                Some(data) => Some(data@),
                None => None,
            },
            paths: match self.filenames {
                Some(filenames) => Some(decoded_paths(filenames@)),
                None => None,
            },
        }
    }
}

impl DragInfo {
    /// The list of file names is not too long for a list of paths.
    pub open spec fn fits(&self) -> bool {
        self.filenames matches Some(filenames) ==> 48 * filenames@.len() <= isize::MAX
    }
}

impl DragInfoView {
    /// The custom payload that is dragged, if one is.
    pub open spec fn payload(self) -> Option<(Seq<char>, Seq<u8>)> {
        match self.custom_data {
            Some(data) => decoded_payload(data),
            None => None,
        }
    }

    /// Where the pointer is, relative to the top-left corner of a window of this height.
    pub open spec fn position(self, content_height: Pixels) -> Point {
        converted_position(self.location, content_height)
    }

    /// The operation with which `window` accepts the drag: what comes from the window itself is
    /// moved.
    pub open spec fn operation(self, window: u64) -> u64 {
        if self.source == Some(window) {
            DRAG_OPERATION_MOVE
        } else {
            DRAG_OPERATION_COPY
        }
    }
}

/// An event for the application's event callback.
pub struct DragCall {
    pub callback: u64,
    pub event: DragInput,
}

/// How a drag over a window is answered.
pub struct DragAnswer {
    /// The event to deliver. When the callback has run,
    /// [`PointerState::finish_drag_event`] follows.
    pub call: Option<DragCall>,
    /// The dragged images are to stay where they were put; see [`preserves_formation`].
    pub preserve_formation: bool,
    pub operation: u64,
}

/// The event with which a drag enters a window; `None` if it carries nothing that the window
/// knows.
pub open spec fn entering(info: DragInfoView, content_height: Pixels) -> Option<DragInputView> {
    let position = info.position(content_height);
    match (info.payload(), info.paths) {
        (Some((drag_type, data)), _) => Some(
            DragInputView::CustomEntered { position, drag_type, data },
        ),
        (None, Some(paths)) => Some(DragInputView::FilesEntered { position, paths }),
        (None, None) => None,
    }
}

/// The event with which a drag moves over a window.
pub open spec fn moving(info: DragInfoView, content_height: Pixels) -> Option<DragInputView> {
    let position = info.position(content_height);
    if info.payload() is Some {
        Some(DragInputView::CustomPending { position })
    } else {
        Some(DragInputView::FilesPending { position })
    }
}

/// The event with which a drag is dropped on a window.
pub open spec fn dropping(info: DragInfoView, content_height: Pixels) -> DragInputView {
    let position = info.position(content_height);
    match info.payload() {
        Some((drag_type, data)) => DragInputView::CustomSubmit { position, drag_type, data },
        None => DragInputView::FilesSubmit { position },
    }
}

/// The answer to a drag that makes for the event `event`: the drag is accepted exactly if there is
/// an event and a callback to take it.
pub open spec fn answers(
    answer: DragAnswer,
    slot: Option<u64>,
    event: Option<DragInputView>,
    info: DragInfoView,
    window: u64,
) -> bool {
    match (slot, event) {
        (Some(callback), Some(event)) => {
            &&& answer.call is Some && answer.call->0.callback == callback
            &&& answer.call->0.event@ == event
            &&& answer.operation == info.operation(window)
            &&& answer.preserve_formation == (info.payload() is Some)
        },
        _ => {
            &&& answer.call is None
            &&& answer.operation == DRAG_OPERATION_NONE
            &&& !answer.preserve_formation
        },
    }
}

/// The event slot after the answer: empty while the callback runs.
pub open spec fn slot_while_answering(
    slot: Option<u64>,
    event: Option<DragInputView>,
) -> Option<u64> {
    if event is Some {
        None
    } else {
        slot
    }
}

/// The answer for a custom payload or for files, when the event is to be delivered.
fn accept(slot: &mut Option<u64>, event: DragInput, preserve_formation: bool, from_window: bool) -> (
answer: DragAnswer)
    ensures
        *final(slot) is None,
        match *old(slot) {
            Some(callback) => {
                &&& answer.call is Some && answer.call->0.callback == callback
                &&& answer.call->0.event == event
                &&& answer.operation == if from_window {
                    DRAG_OPERATION_MOVE
                } else {
                    DRAG_OPERATION_COPY
                }
                &&& answer.preserve_formation == preserve_formation
            },
            None => answer == reject_answer(),
        },
{
    match slot.take() {
        Some(callback) => DragAnswer {
            call: Some(DragCall { callback, event }),
            preserve_formation,
            operation: if from_window {
                DRAG_OPERATION_MOVE
            } else {
                DRAG_OPERATION_COPY
            },
        },
        None => DragAnswer {
            call: None,
            preserve_formation: false,
            operation: DRAG_OPERATION_NONE,
        },
    }
}

/// The answer to a drag that is not accepted.
pub open spec fn reject_answer() -> DragAnswer {
    DragAnswer { call: None, preserve_formation: false, operation: DRAG_OPERATION_NONE }
}

/// Whether a drag comes from the window.
pub fn is_drag_from_this_window(source: Option<u64>, window: u64) -> (result: bool)
    ensures
        result == (source == Some(window)),
{
    match source {
        Some(source) => source == window,
        None => false,
    }
}

/// The custom payload on the pasteboard of a drag.
pub fn custom_payload_from_event(data: Option<&Vec<u8>>) -> (result: Option<(String, Vec<u8>)>)
    ensures
        match result {
            Some(payload) => data is Some && decoded_payload(data->0@) == Some(
                (payload.0@, payload.1@),
            ),
            None => data is None || decoded_payload(data->0@) is None,
        },
{
    match data {
        Some(data) => decode_custom_drag_payload(data.as_slice()),
        None => None,
    }
}

/// A drag enters the window.
pub fn dragging_entered(
    slot: &mut Option<u64>,
    info: &DragInfo,
    window: u64,
    content_height: Pixels,
) -> (answer: DragAnswer)
    requires
        info.fits(),
    ensures
        answers(answer, *old(slot), entering(info@, content_height), info@, window),
        *final(slot) == slot_while_answering(*old(slot), entering(info@, content_height)),
{
    let from_window = is_drag_from_this_window(info.source, window);
    let position = convert_mouse_position(info.location, content_height);
    if let Some((drag_type, data)) = custom_payload_from_event(info.custom_data.as_ref()) {
        let event = DragInput::Custom(CustomDragEvent::Entered { position, drag_type, data });
        return accept(slot, event, true, from_window);
    }
    match external_paths_from_event(info.filenames.as_ref()) {
        Some(paths) => accept(
            slot,
            DragInput::Files(FileDropEvent::Entered { position, paths }),
            false,
            from_window,
        ),
        None => DragAnswer {
            call: None,
            preserve_formation: false,
            operation: DRAG_OPERATION_NONE,
        },
    }
}

/// A drag moves over the window.
pub fn dragging_updated(
    slot: &mut Option<u64>,
    info: &DragInfo,
    window: u64,
    content_height: Pixels,
) -> (answer: DragAnswer)
    ensures
        answers(answer, *old(slot), moving(info@, content_height), info@, window),
        *final(slot) is None,
{
    let from_window = is_drag_from_this_window(info.source, window);
    let position = convert_mouse_position(info.location, content_height);
    if custom_payload_from_event(info.custom_data.as_ref()).is_some() {
        accept(slot, DragInput::Custom(CustomDragEvent::Pending { position }), true, from_window)
    } else {
        accept(slot, DragInput::Files(FileDropEvent::Pending { position }), false, from_window)
    }
}

/// The callback that takes a drop, and the event that it gets.
pub open spec fn dropped(
    slot: Option<u64>,
    info: DragInfoView,
    content_height: Pixels,
) -> Option<(u64, DragInputView)> {
    match slot {
        Some(callback) => Some((callback, dropping(info, content_height))),
        None => None,
    }
}

/// A drag is dropped on the window, which takes it exactly if there is a callback to take it.
pub fn perform_drag_operation(
    slot: &mut Option<u64>,
    info: &DragInfo,
    content_height: Pixels,
) -> (call: Option<DragCall>)
    ensures
        *final(slot) is None,
        dropped(*old(slot), info@, content_height) == match call {
            Some(call) => Some((call.callback, call.event@)),
            None => None,
        },
        match *old(slot) {
            Some(callback) => call is Some && call->0.callback == callback && call->0.event@
                == dropping(info@, content_height),
            None => call is None,
        },
{
    let position = convert_mouse_position(info.location, content_height);
    let event = match custom_payload_from_event(info.custom_data.as_ref()) {
        Some((drag_type, data)) => DragInput::Custom(
            CustomDragEvent::Submit { position, drag_type, data },
        ),
        None => DragInput::Files(FileDropEvent::Submit { position }),
    };
    match slot.take() {
        Some(callback) => Some(DragCall { callback, event }),
        None => None,
    }
}

/// The events when a drag leaves the window.
pub open spec fn exit_events() -> Seq<DragInputView> {
    seq![DragInputView::CustomExited, DragInputView::FilesExited]
}

/// The views of a list of events.
pub open spec fn views(events: Seq<DragInput>) -> Seq<DragInputView> {
    events.map_values(|event: DragInput| event@)
}

/// A drag leaves the window: the events to deliver, one after the other.
pub fn dragging_exited() -> (events: Vec<DragInput>)
    ensures
        views(events@) == exit_events(),
{
    let mut events: Vec<DragInput> = Vec::new();
    events.push(DragInput::Custom(CustomDragEvent::Exited));
    events.push(DragInput::Files(FileDropEvent::Exited));
    assert(views(events@) =~= exit_events());
    events
}

/// A drop on the window is over: the drag leaves it.
pub fn conclude_drag_operation() -> (events: Vec<DragInput>)
    ensures
        views(events@) == exit_events(),
{
    dragging_exited()
}

/// The last event of a drag that the window started: where it ended. `frame` is the window's
/// content frame and `screen_frame` the frame of its screen.
pub open spec fn session_result(
    operation: u64,
    release_point: Point,
    frame: Rect,
    screen_frame: Option<Rect>,
) -> DragInputView {
    DragInputView::CustomEnded {
        operation,
        outside_window: outside_frame(frame, release_point),
        position: screen_position_of(release_point, screen_frame),
    }
}

/// Makes the last event of a drag that the window started. It follows the event of
/// [`PointerState::dragging_session_ended`], whose callback can move the window: the frames are
/// those that the window and its screen have after that callback.
pub fn dragging_session_result(
    operation: u64,
    release_point: Point,
    frame: Rect,
    screen_frame: Option<Rect>,
) -> (event: DragInput)
    ensures
        event@ == session_result(operation, release_point, frame, screen_frame),
{
    DragInput::Custom(
        CustomDragEvent::Ended {
            operation,
            outside_window: released_outside(frame, release_point),
            position: position_on_screen(release_point, screen_frame),
        },
    )
}

/// Whether files are being dragged into the window, as far as an event says so.
pub open spec fn files_dragged_by(event: DragInputView) -> Option<bool> {
    match event {
        DragInputView::FilesEntered { .. } => Some(true),
        DragInputView::FilesExited | DragInputView::FilesEnded => Some(false),
        _ => None,
    }
}

/// Computes [`files_dragged_by`].
pub fn external_files_dragged(event: &DragInput) -> (result: Option<bool>)
    ensures
        result == files_dragged_by(event@),
{
    match event {
        DragInput::Files(FileDropEvent::Entered { .. }) => Some(true),
        DragInput::Files(FileDropEvent::Exited) => Some(false),
        DragInput::Files(FileDropEvent::Ended) => Some(false),
        _ => None,
    }
}

/// The pointer state when the callback has had an event that said `dragged` of dragged files.
pub open spec fn drag_event_seen(pointer: PointerState, dragged: Option<bool>) -> PointerState {
    match dragged {
        Some(dragged) => PointerState { external_files_dragged: dragged, ..pointer },
        None => pointer,
    }
}

/// Whether files are being dragged into the window, after an event was delivered.
pub open spec fn files_dragged_after(before: bool, event: DragInputView) -> bool {
    match files_dragged_by(event) {
        Some(dragged) => dragged,
        None => before,
    }
}

/// Whether files are being dragged into the window, after several events were delivered.
pub open spec fn files_dragged_after_all(before: bool, events: Seq<DragInputView>) -> bool {
    events.fold_left(before, |dragged: bool, event: DragInputView| files_dragged_after(dragged, event))
}

impl PointerState {
    /// A drag that the window started has ended: the first of two events to deliver; the other is
    /// made by [`dragging_session_result`] when this one has been delivered.
    pub fn dragging_session_ended(&mut self) -> (event: DragInput)
        requires
            old(self).synthetic_drag_counter < usize::MAX,
        ensures
            event@ == DragInputView::FilesEnded,
            *final(self) == drag_over(*old(self)),
            *final(self) == (PointerState {
                synthetic_drag_counter: (old(self).synthetic_drag_counter + 1) as usize,
                last_left_mouse_down_event: None,
                ..*old(self)
            }),
    {
        self.external_drag_ended();
        DragInput::Files(FileDropEvent::Ended)
    }

    /// The event callback has had an event of a drag, which said `dragged` of dragged files; see
    /// [`external_files_dragged`].
    pub fn finish_drag_event(
        &mut self,
        slot: &mut Option<u64>,
        callback: u64,
        dragged: Option<bool>,
    )
        ensures
            *final(slot) == Some(callback),
            *final(self) == drag_event_seen(*old(self), dragged),
            *final(self) == (PointerState {
                external_files_dragged: match dragged {
                    Some(dragged) => dragged,
                    None => old(self).external_files_dragged,
                },
                ..*old(self)
            }),
    {
        *slot = Some(callback);
        if let Some(dragged) = dragged {
            self.external_files_dragged = dragged;
        }
    }
}

/// The operations that a drag from this application allows: outside the application it can only
/// be copied.
pub open spec fn source_operations(context: i64) -> u64 {
    if context == DRAGGING_CONTEXT_OUTSIDE_APPLICATION {
        DRAG_OPERATION_COPY
    } else {
        DRAG_OPERATION_COPY | DRAG_OPERATION_MOVE
    }
}

/// Computes [`source_operations`].
pub fn dragging_session_source_operation_mask(context: i64) -> (operations: u64)
    ensures
        operations == source_operations(context),
{
    if context == DRAGGING_CONTEXT_OUTSIDE_APPLICATION {
        DRAG_OPERATION_COPY
    } else {
        DRAG_OPERATION_COPY | DRAG_OPERATION_MOVE
    }
}

/// Whether the formation of a drag has to be changed for the dragged images to stay where they
/// were put. Drags of files keep AppKit's formation.
pub fn preserves_formation(before: i64) -> (set: bool)
    ensures
        set == (before != DRAGGING_FORMATION_NONE),
{
    before != DRAGGING_FORMATION_NONE
}

/// A custom drag arrives as it was sent: a window over which it comes sees its type and its data,
/// and so does the window that it is dropped on.
pub proof fn custom_drag_arrives_unchanged(
    drag_type: Seq<char>,
    data: Seq<u8>,
    info: DragInfoView,
    content_height: Pixels,
)
    requires
        encode_utf8(drag_type).len() < 0x1_0000_0000,
        info.custom_data == Some(encoded_payload(drag_type, data)),
    ensures
        entering(info, content_height) == Some(
            DragInputView::CustomEntered {
                position: info.position(content_height),
                drag_type,
                data,
            },
        ),
        dropping(info, content_height) == (DragInputView::CustomSubmit {
            position: info.position(content_height),
            drag_type,
            data,
        }),
{
    decode_inverts_encode(drag_type, data);
}

/// What a window puts on the pasteboard when a custom drag starts is what the window that the drag
/// enters tells its application.
pub proof fn started_drag_is_what_enters(
    payload: ExternalDragPayload,
    location: Point,
    info: DragInfoView,
    content_height: Pixels,
)
    requires
        payload is Custom,
        declined(payload, Some(location)) is None,
        encode_utf8(payload->drag_type@).len() < 0x1_0000_0000,
        info.custom_data == Some(dragging_items(payload, location)[0].content->Custom_0),
    ensures
        dragging_items(payload, location).len() == 1,
        dragging_items(payload, location)[0].content is Custom,
        entering(info, content_height) == Some(
            DragInputView::CustomEntered {
                position: info.position(content_height),
                drag_type: payload->drag_type@,
                data: payload->data@,
            },
        ),
{
    custom_drag_arrives_unchanged(payload->drag_type@, payload->data@, info, content_height);
}

/// A drag that leaves the window, or that has ended, is over: whatever came before, no files are
/// being dragged into the window any more.
pub proof fn drag_that_left_is_over(
    before: bool,
    events: Seq<DragInputView>,
    operation: u64,
    release_point: Point,
    frame: Rect,
    screen_frame: Option<Rect>,
)
    ensures
        !files_dragged_after_all(before, events + exit_events()),
        !files_dragged_after_all(
            before,
            events + seq![
                DragInputView::FilesEnded,
                session_result(operation, release_point, frame, screen_frame),
            ],
        ),
{
    let fold = |dragged: bool, event: DragInputView| files_dragged_after(dragged, event);
    let left = events + exit_events();
    assert(left.drop_last().drop_last() =~= events);
    let ended = events + seq![
        DragInputView::FilesEnded,
        session_result(operation, release_point, frame, screen_frame),
    ];
    assert(ended.drop_last().drop_last() =~= events);
    reveal_with_fuel(Seq::fold_left, 3);
    assert(left.last() == DragInputView::FilesExited);
    assert(ended.drop_last().last() == DragInputView::FilesEnded);
}

/// Drags of custom payloads do not count as drags of files.
pub proof fn custom_drags_are_no_file_drags(before: bool, event: DragInputView)
    requires
        event is CustomEntered || event is CustomPending || event is CustomSubmit || event
            is CustomExited || event is CustomEnded,
    ensures
        files_dragged_after(before, event) == before,
{
}

/// The operation with which a window accepts a drag is one that the source of the drag allows:
/// one that comes from the window itself is within the application.
pub proof fn accepted_operations_are_allowed(info: DragInfoView, window: u64)
    ensures
        source_operations(DRAGGING_CONTEXT_WITHIN_APPLICATION) & info.operation(window)
            == info.operation(window),
        info.source != Some(window) ==> source_operations(DRAGGING_CONTEXT_OUTSIDE_APPLICATION)
            & info.operation(window) == info.operation(window),
{
    assert((1u64 | 16u64) & 16u64 == 16u64 && (1u64 | 16u64) & 1u64 == 1u64 && 1u64 & 1u64
        == 1u64) by (bit_vector);
}

/// The position that an event of a drag tells, if it tells one.
pub open spec fn told_position(event: DragInputView) -> Option<Point> {
    match event {
        DragInputView::CustomEntered { position, .. } => Some(position),
        DragInputView::CustomPending { position } => Some(position),
        DragInputView::CustomSubmit { position, .. } => Some(position),
        DragInputView::CustomEnded { position, .. } => Some(position),
        DragInputView::FilesEntered { position, .. } => Some(position),
        DragInputView::FilesPending { position } => Some(position),
        DragInputView::FilesSubmit { position } => Some(position),
        DragInputView::CustomExited | DragInputView::FilesExited | DragInputView::FilesEnded =>
            None,
    }
}

/// Whatever is dragged over the window, and whether it enters, moves or is dropped, the event tells
/// where the pointer is: as far from the left edge as AppKit said, and as far from the top edge as
/// the height of the content leaves over.
pub proof fn drags_tell_where_the_pointer_is(info: DragInfoView, content_height: Pixels)
    requires
        everyday_point(info.location),
        is_everyday(content_height as int),
    ensures
        ({
            let entered = entering(info, content_height);
            let moved = moving(info, content_height);
            let dropped = told_position(dropping(info, content_height));
            &&& dropped matches Some(position) && position.x == info.location.x && position.y
                + info.location.y == content_height
            &&& moved is Some && told_position(moved->0) == dropped
            &&& entered is Some ==> told_position(entered->0) == dropped
        }),
{
}

/// Wherever the pointer is, the events of a drag tell where up to rounding, and all of them alike.
pub proof fn drags_tell_where_the_pointer_is_up_to_rounding(
    info: DragInfoView,
    other: DragInfoView,
    content_height: Pixels,
)
    requires
        fits(content_height - info.location.y),
        other.location == info.location,
    ensures
        ({
            let dropped = told_position(dropping(info, content_height));
            let entered = entering(info, content_height);
            &&& dropped matches Some(position) && close(
                position.x as int,
                info.location.x as int,
                magnitude(info.location.x as int),
            ) && close(
                position.y + info.location.y,
                content_height as int,
                3 * (magnitude(info.location.y as int) + magnitude(content_height as int)),
            )
            &&& told_position(dropping(other, content_height)) == dropped
            &&& moving(other, content_height) is Some && told_position(
                moving(other, content_height)->0,
            ) == dropped
            &&& entered is Some ==> told_position(entered->0) == dropped
        }),
{
    mouse_positions_count_from_the_top_up_to_rounding(info.location, content_height);
}

/// A drag that carries a custom payload is one from the moment it enters until it is dropped, even
/// if it also carries files; any other drag is one of files, and enters only if it does carry
/// files. Files enter with their paths.
pub proof fn drags_keep_their_kind(info: DragInfoView, content_height: Pixels)
    ensures
        ({
            let custom = info.custom_data matches Some(data) && decoded_payload(data) is Some;
            let entered = entering(info, content_height);
            let moved = moving(info, content_height);
            let dropped = dropping(info, content_height);
            &&& custom ==> {
                let (drag_type, data) = decoded_payload(info.custom_data->0)->0;
                &&& entered is Some && entered->0 is CustomEntered
                &&& entered->0->CustomEntered_drag_type == drag_type
                &&& entered->0->CustomEntered_data == data
                &&& moved is Some && moved->0 is CustomPending
                &&& dropped is CustomSubmit
                &&& dropped->CustomSubmit_drag_type == drag_type
                &&& dropped->CustomSubmit_data == data
            }
            &&& !custom ==> moved is Some && moved->0 is FilesPending && dropped is FilesSubmit
            &&& !custom ==> match info.paths {
                Some(paths) => entered is Some && entered->0 is FilesEntered
                    && entered->0->FilesEntered_paths == paths,
                None => entered is None,
            }
        }),
{
}

/// The paths with which files enter are their names, one for one and in order.
pub proof fn files_enter_under_their_names(info: DragInfo, i: int)
    requires
        info.filenames is Some,
        0 <= i < info.filenames->0@.len(),
        valid_utf8(info.filenames->0@[i]@),
    ensures
        info@.paths is Some,
        info@.paths->0.len() == info.filenames->0@.len(),
        info@.paths->0[i] == decode_utf8(info.filenames->0@[i]@),
        info@.source == info.source,
        info@.location == info.location,
        (info@.custom_data is Some) == (info.custom_data is Some),
        info.custom_data is Some ==> info@.custom_data->0 == info.custom_data->0@,
{
}

/// A drag is accepted exactly if there is something to tell and a callback to tell it to: what
/// comes from the window itself is moved, anything else is copied, and the images of a custom
/// payload stay where they were put. There is no second answer.
pub proof fn answers_are_determined(
    answer: DragAnswer,
    other: DragAnswer,
    slot: Option<u64>,
    event: Option<DragInputView>,
    info: DragInfoView,
    window: u64,
)
    requires
        answers(answer, slot, event, info, window),
        answers(other, slot, event, info, window),
    ensures
        ({
            let accepted = slot is Some && event is Some;
            &&& (answer.call is Some) == accepted
            &&& accepted ==> answer.call->0.callback == slot->0
            &&& accepted ==> answer.call->0.event@ == event->0
            &&& accepted && info.source == Some(window) ==> answer.operation == 16
            &&& accepted && info.source != Some(window) ==> answer.operation == 1
            &&& !accepted ==> answer.operation == 0
            &&& answer.preserve_formation == (accepted && info.custom_data is Some
                && decoded_payload(info.custom_data->0) is Some)
            &&& other.operation == answer.operation
            &&& other.preserve_formation == answer.preserve_formation
        }),
        slot_while_answering(slot, event) == if event is Some {
            None
        } else {
            slot
        },
{
}

/// A drag of this application can be copied anywhere, and moved anywhere but outside the
/// application; nothing else is allowed.
pub proof fn drags_are_moved_only_within_the_application(context: i64)
    ensures
        source_operations(context) & 1 == 1,
        source_operations(context) & 16 == if context == 0 {
            0u64
        } else {
            16u64
        },
        source_operations(context) <= 17,
{
    assert(1u64 & 1 == 1) by (bit_vector);
    assert(1u64 & 16 == 0) by (bit_vector);
    assert((1u64 | 16) == 17) by (bit_vector);
    assert(17u64 & 1 == 1) by (bit_vector);
    assert(17u64 & 16 == 16) by (bit_vector);
}

/// Files count as being dragged into the window from when they enter until they leave or the drag
/// has ended; moving, dropping and custom drags change nothing about that, and nothing else of the
/// pointer changes.
pub proof fn files_are_dragged_between_entering_and_leaving(
    pointer: PointerState,
    event: DragInputView,
)
    ensures
        ({
            let after = drag_event_seen(pointer, files_dragged_by(event));
            &&& after.external_files_dragged == if event is FilesEntered {
                true
            } else if event is FilesExited || event is FilesEnded {
                false
            } else {
                pointer.external_files_dragged
            }
            &&& files_dragged_after(pointer.external_files_dragged, event)
                == after.external_files_dragged
            &&& after.last_left_mouse_down_event == pointer.last_left_mouse_down_event
            &&& after.synthetic_drag_counter == pointer.synthetic_drag_counter
            &&& after.previous_modifiers_changed_event == pointer.previous_modifiers_changed_event
            &&& after.first_mouse == pointer.first_mouse
        }),
{
}

/// A drag that leaves the window tells so of custom payloads and of files, and of nothing else.
pub proof fn leaving_is_told_of_both_kinds()
    ensures
        exit_events().len() == 2,
        exit_events().contains(DragInputView::CustomExited),
        exit_events().contains(DragInputView::FilesExited),
{
    assert(exit_events()[0] is CustomExited);
    assert(exit_events()[1] is FilesExited);
}

/// The end of a drag is told with the operation that it ended with, whether it ended beyond an edge
/// of the window, and where on the screen, counted from its top-left corner.
pub proof fn session_ends_where_the_button_was_released(
    operation: u64,
    release_point: Point,
    frame: Rect,
    screen: Rect,
)
    requires
        everyday_point(release_point),
        everyday_rect(frame),
        everyday_rect(screen),
    ensures
        ({
            let event = session_result(operation, release_point, frame, Some(screen));
            let nowhere = session_result(operation, release_point, frame, None);
            &&& event is CustomEnded
            &&& event->operation == operation
            &&& event->outside_window <==> {
                ||| release_point.x < frame.origin.x
                ||| release_point.x > frame.origin.x + frame.size.width
                ||| release_point.y < frame.origin.y
                ||| release_point.y > frame.origin.y + frame.size.height
            }
            &&& screen.origin.x + event->CustomEnded_position.x == release_point.x
            &&& release_point.y + event->CustomEnded_position.y == screen.origin.y
                + screen.size.height
            &&& nowhere is CustomEnded && nowhere->outside_window == event->outside_window
            &&& nowhere->CustomEnded_position.x == release_point.x
            &&& nowhere->CustomEnded_position.y == -release_point.y
        }),
{
    outside_is_beyond_an_edge(frame, release_point);
    screen_positions_measure_from_the_top_left(release_point, screen);
}

/// A drop is taken exactly if there is a callback, by that callback. A custom payload is handed over
/// as it is on the pasteboard, and anything else is a drop of files.
pub proof fn drops_are_taken_by_the_callback(
    slot: Option<u64>,
    info: DragInfoView,
    content_height: Pixels,
)
    ensures
        ({
            let taken = dropped(slot, info, content_height);
            let (callback, event) = taken->0;
            &&& taken is Some == slot is Some
            &&& slot is Some ==> callback == slot->0
            &&& slot is Some && info.custom_data is None ==> event is FilesSubmit
            &&& slot is Some && info.custom_data is Some ==> match decoded_payload(
                info.custom_data->0,
            ) {
                Some(payload) => event is CustomSubmit && (
                    event->CustomSubmit_drag_type,
                    event->CustomSubmit_data,
                ) == payload,
                None => event is FilesSubmit,
            }
        }),
{
}

} // verus!
