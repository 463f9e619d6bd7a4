use mac_window::drag_payload::{decode_custom_drag_payload, encode_custom_drag_payload};
use mac_window::drop_target::{
    conclude_drag_operation, custom_drag_pboard_type, dragged_types, dragging_entered,
    dragging_exited, dragging_session_result, dragging_session_source_operation_mask,
    dragging_updated, external_files_dragged, filenames_pboard_type, is_drag_from_this_window, perform_drag_operation, preserves_formation, CustomDragEvent,
    DragInfo, DragInput, FileDropEvent, DRAG_OPERATION_COPY, DRAG_OPERATION_MOVE,
    DRAG_OPERATION_NONE,
};
use mac_window::external_drag::{
    make_drag_preview_image, may_begin_session, start_external_drag, Color, DragDeclined, DragFile,
    DragImage, DraggingContent, ExternalDragPayload, ExternalDragPreview, SessionSetup,
};
use mac_window::external_paths::external_paths_from_event;
use mac_window::file_paths::path_extension;
use mac_window::geometry::{Point, Rect, Size, POINT};
use mac_window::pointer::PointerState;
use std::path::Path;

const WINDOW: u64 = 77;

const HEIGHT: i64 = 100 * POINT;

fn points(x: i64, y: i64) -> Point {
    Point {
        x: x * POINT,
        y: y * POINT,
    }
}

fn info(source: Option<u64>, custom: Option<(&str, &[u8])>, files: Option<&[&[u8]]>) -> DragInfo {
    DragInfo {
        source,
        location: points(10, 30),
        custom_data: custom.map(|(drag_type, data)| encode_custom_drag_payload(drag_type, data)),
        filenames: files.map(|files| files.iter().map(|name| name.to_vec()).collect()),
    }
}

#[test]
fn custom_drag_enters_with_its_payload() {
    let mut slot = Some(4);
    let info = info(Some(WINDOW), Some(("tab", &[1, 2])), Some(&[b"/tmp/a"]));
    let answer = dragging_entered(&mut slot, &info, WINDOW, HEIGHT);
    assert_eq!(slot, None);
    assert_eq!(answer.operation, DRAG_OPERATION_MOVE);
    assert!(answer.preserve_formation);
    let call = answer.call.expect("a call");
    assert_eq!(call.callback, 4);
    match &call.event {
        DragInput::Custom(CustomDragEvent::Entered {
            position,
            drag_type,
            data,
        }) => {
            assert_eq!(*position, points(10, 70));
            assert_eq!(drag_type, "tab");
            assert_eq!(*data, [1, 2]);
        }
        _ => panic!("another event"),
    }
    let mut pointer = PointerState::new();
    pointer.finish_drag_event(
        &mut slot,
        call.callback,
        external_files_dragged(&call.event),
    );
    assert_eq!(slot, Some(4));
    assert!(!pointer.external_files_dragged);
}

#[test]
fn files_enter_with_their_paths() {
    let mut slot = Some(4);
    let info = info(None, None, Some(&[b"/tmp/a", b"/tmp/\xff", b"/tmp/c"]));
    let answer = dragging_entered(&mut slot, &info, WINDOW, HEIGHT);
    assert_eq!(answer.operation, DRAG_OPERATION_COPY);
    assert!(!answer.preserve_formation);
    let call = answer.call.expect("a call");
    match &call.event {
        DragInput::Files(FileDropEvent::Entered { position, paths }) => {
            assert_eq!(*position, points(10, 70));
            assert_eq!(paths.paths(), ["/tmp/a", "/tmp/\u{fffd}", "/tmp/c"]);
        }
        _ => panic!("another event"),
    }
    let mut pointer = PointerState::new();
    pointer.finish_drag_event(
        &mut slot,
        call.callback,
        external_files_dragged(&call.event),
    );
    assert!(pointer.external_files_dragged);
    for event in dragging_exited() {
        let callback = slot.take().expect("the callback");
        pointer.finish_drag_event(&mut slot, callback, external_files_dragged(&event));
    }
    assert!(!pointer.external_files_dragged);
    assert_eq!(slot, Some(4));
}

#[test]
fn drags_are_rejected_without_a_callback_or_a_known_content() {
    let mut none = None;
    let custom = info(None, Some(("tab", &[1])), None);
    let answer = dragging_entered(&mut none, &custom, WINDOW, HEIGHT);
    assert_eq!(answer.operation, DRAG_OPERATION_NONE);
    assert!(answer.call.is_none());
    let answer = dragging_updated(&mut none, &custom, WINDOW, HEIGHT);
    assert_eq!(answer.operation, DRAG_OPERATION_NONE);
    assert!(perform_drag_operation(&mut none, &custom, HEIGHT).is_none());

    let mut slot = Some(4);
    let unknown = info(None, None, None);
    let answer = dragging_entered(&mut slot, &unknown, WINDOW, HEIGHT);
    assert_eq!(answer.operation, DRAG_OPERATION_NONE);
    assert_eq!(slot, Some(4));
}

#[test]
fn broken_custom_payload_counts_as_files() {
    let mut slot = Some(4);
    let mut info = info(None, None, Some(&[b"/tmp/a"]));
    info.custom_data = Some(vec![0, 0, 0, 9]);
    let answer = dragging_entered(&mut slot, &info, WINDOW, HEIGHT);
    assert!(matches!(
        answer.call.expect("a call").event,
        DragInput::Files(FileDropEvent::Entered { .. })
    ));
}

#[test]
fn drags_move_and_drop_as_what_they_are() {
    let custom = info(Some(WINDOW), Some(("tab", &[1])), None);
    let files = info(Some(3), None, Some(&[b"/tmp/a"]));

    let answer = dragging_updated(&mut Some(4), &custom, WINDOW, HEIGHT);
    assert_eq!(answer.operation, DRAG_OPERATION_MOVE);
    assert!(answer.preserve_formation);
    assert!(matches!(
        answer.call.expect("a call").event,
        DragInput::Custom(CustomDragEvent::Pending { .. })
    ));
    let answer = dragging_updated(&mut Some(4), &files, WINDOW, HEIGHT);
    assert_eq!(answer.operation, DRAG_OPERATION_COPY);
    assert!(!answer.preserve_formation);
    assert!(matches!(
        answer.call.expect("a call").event,
        DragInput::Files(FileDropEvent::Pending { .. })
    ));

    match perform_drag_operation(&mut Some(4), &custom, HEIGHT).expect("a call").event {
        DragInput::Custom(CustomDragEvent::Submit {
            position,
            drag_type,
            data,
        }) => {
            assert_eq!(position, points(10, 70));
            assert_eq!((drag_type.as_str(), data.as_slice()), ("tab", &[1u8][..]));
        }
        _ => panic!("another event"),
    }
    assert!(matches!(
        perform_drag_operation(&mut Some(4), &files, HEIGHT).expect("a call").event,
        DragInput::Files(FileDropEvent::Submit { .. })
    ));
}

#[test]
fn drags_leave_as_custom_drags_and_as_files() {
    for events in [dragging_exited(), conclude_drag_operation()] {
        assert_eq!(events.len(), 2);
        assert!(matches!(events[0], DragInput::Custom(CustomDragEvent::Exited)));
        assert!(matches!(events[1], DragInput::Files(FileDropEvent::Exited)));
    }
}

#[test]
fn ended_session_reports_where_it_ended() {
    let mut pointer = PointerState {
        last_left_mouse_down_event: Some(9),
        synthetic_drag_counter: 5,
        external_files_dragged: true,
        ..PointerState::new()
    };
    let frame = Rect {
        origin: points(100, 200),
        size: Size {
            width: 300 * POINT,
            height: 400 * POINT,
        },
    };
    let screen = Rect {
        origin: points(0, 0),
        size: Size {
            width: 1920 * POINT,
            height: 1080 * POINT,
        },
    };
    let event = pointer.dragging_session_ended();
    assert_eq!(pointer.last_left_mouse_down_event, None);
    assert_eq!(pointer.synthetic_drag_counter, 6);
    assert!(matches!(event, DragInput::Files(FileDropEvent::Ended)));
    let mut slot = None;
    pointer.finish_drag_event(&mut slot, 1, external_files_dragged(&event));
    assert!(!pointer.external_files_dragged);
    let result = dragging_session_result(16, points(90, 300), frame, Some(screen));
    assert_eq!(external_files_dragged(&result), None);
    match &result {
        DragInput::Custom(CustomDragEvent::Ended {
            operation,
            outside_window,
            position,
        }) => {
            assert_eq!(*operation, 16);
            assert!(*outside_window);
            assert_eq!(*position, points(90, 780));
        }
        _ => panic!("another event"),
    }
    let moved = Rect {
        origin: points(80, 200),
        ..frame
    };
    match dragging_session_result(16, points(90, 300), moved, None) {
        DragInput::Custom(CustomDragEvent::Ended {
            outside_window,
            position,
            ..
        }) => {
            assert!(!outside_window);
            assert_eq!(position, points(90, -300));
        }
        _ => panic!("another event"),
    }
}

#[test]
fn windows_accept_files_and_custom_payloads() {
    assert_eq!(dragged_types(), ["NSFilenamesPboardType", "org.gpui.custom-drag"]);
    assert_eq!(dragged_types(), [filenames_pboard_type(), custom_drag_pboard_type()]);
}

#[test]
fn sources_allow_what_targets_answer() {
    assert_eq!(dragging_session_source_operation_mask(0), DRAG_OPERATION_COPY);
    let within = dragging_session_source_operation_mask(1);
    assert_eq!(within, 17);
    assert_eq!(dragging_session_source_operation_mask(7), 17);
    assert_eq!(within & DRAG_OPERATION_MOVE, DRAG_OPERATION_MOVE);
    assert!(is_drag_from_this_window(Some(WINDOW), WINDOW));
    assert!(!is_drag_from_this_window(Some(1), WINDOW));
    assert!(!is_drag_from_this_window(None, WINDOW));
}

#[test]
fn formation_is_changed_only_if_needed() {
    assert!(preserves_formation(0));
    assert!(!preserves_formation(1));
    assert!(preserves_formation(2));
}

#[test]
fn pasteboard_types_are_named() {
    assert_eq!(filenames_pboard_type(), "NSFilenamesPboardType");
    assert_eq!(custom_drag_pboard_type(), "org.gpui.custom-drag");
}

#[test]
fn paths_outgrow_their_inline_room() {
    assert!(external_paths_from_event(None).is_none());
    let names: Vec<Vec<u8>> = (0..20u8).map(|i| format!("/p/{i}").into_bytes()).collect();
    let paths = external_paths_from_event(Some(&names)).expect("paths");
    assert_eq!(paths.paths().len(), 20);
    assert_eq!(paths.paths()[0], "/p/0");
    assert_eq!(paths.paths()[19], "/p/19");
}

fn file(path: &[u8], is_directory: bool) -> DragFile {
    DragFile {
        path: path.to_vec(),
        is_directory,
    }
}

fn custom(drag_type: &str, data: &[u8], preview: Option<ExternalDragPreview>) -> ExternalDragPayload {
    ExternalDragPayload::Custom {
        drag_type: drag_type.to_string(),
        data: data.to_vec(),
        preview,
    }
}

fn preview(width: u32, height: u32, cursor_offset: Option<Point>) -> ExternalDragPreview {
    ExternalDragPreview {
        text: "main.rs".to_string(),
        width,
        height,
        cursor_offset,
    }
}

#[test]
fn drags_are_declined_for_a_reason() {
    let at = Some(points(50, 60));
    let reason = |payload: ExternalDragPayload, location| {
        start_external_drag(&payload, location).err()
    };
    let none = || ExternalDragPayload::Files(vec![]);
    assert_eq!(reason(none(), at), Some(DragDeclined::NoPaths));
    assert_eq!(reason(none(), None), Some(DragDeclined::NoPaths));
    let some = ExternalDragPayload::Files(vec![file(b"/a", false)]);
    assert_eq!(reason(some, None), Some(DragDeclined::NoMouseDown));
    assert_eq!(reason(custom("", &[], None), None), Some(DragDeclined::NoMouseDown));
    assert_eq!(reason(custom("", &[1], None), at), Some(DragDeclined::EmptyPayload));
    assert_eq!(reason(custom("tab", &[], None), at), Some(DragDeclined::EmptyPayload));
}

#[test]
fn files_are_dragged_with_their_icons() {
    let payload = ExternalDragPayload::Files(vec![
        file(b"/a/b.txt", false),
        file(b"/a/\0", false),
        file(b"/a/dir.app", true),
        file(b"/a/\xff", false),
        file(b"/\xff/b.tar.gz", false),
        file(b"/a/b.\xff", false),
        file(b"/a.d/b", false),
    ]);
    let items = start_external_drag(&payload, Some(points(50, 60))).expect("items");
    let mut seen = Vec::new();
    for item in &items {
        assert_eq!(item.frame.origin, points(22, 42));
        assert_eq!(
            item.frame.size,
            Size {
                width: 180 * POINT,
                height: 36 * POINT
            }
        );
        match (&item.content, &item.image) {
            (DraggingContent::File { file }, DragImage::Icon { file_type, frame }) => {
                assert_eq!(frame.size.width, 32 * POINT);
                assert_eq!(frame.size.height, 32 * POINT);
                seen.push((*file, file_type.as_str()));
            }
            _ => panic!("another item"),
        }
    }
    assert_eq!(
        seen,
        [
            (0, "txt"),
            (2, "public.folder"),
            (3, "public.data"),
            (4, "gz"),
            (5, "public.data"),
            (6, "public.data"),
        ]
    );
    assert!(may_begin_session(items.len()));
    assert!(!may_begin_session(0));
}

#[test]
fn custom_drag_carries_its_payload() {
    let payload = custom("tab", &[5, 6], None);
    let items = start_external_drag(&payload, Some(points(50, 60))).expect("items");
    assert_eq!(items.len(), 1);
    match (&items[0].content, &items[0].image) {
        (DraggingContent::Custom(data), DragImage::Icon { file_type, frame }) => {
            assert_eq!(
                decode_custom_drag_payload(data),
                Some(("tab".to_string(), vec![5, 6]))
            );
            assert_eq!(file_type, "public.text");
            assert_eq!(frame.size.width, 36 * POINT);
        }
        _ => panic!("another item"),
    }
    assert_eq!(items[0].frame.origin, points(22, 42));
}

#[test]
fn card_hangs_at_the_pointer() {
    let payload = custom("tab", &[5], Some(preview(260, 36, None)));
    let items = start_external_drag(&payload, Some(points(50, 60))).expect("items");
    assert_eq!(items[0].frame.origin, points(22, 42));
    assert_eq!(items[0].frame.size.width, 260 * POINT);
    let payload = custom("tab", &[5], Some(preview(260, 36, Some(points(100, 10)))));
    let items = start_external_drag(&payload, Some(points(50, 60))).expect("items");
    assert_eq!(items[0].frame.origin, points(-50, 34));
    assert!(matches!(items[0].image, DragImage::Card(_)));
}

#[test]
fn card_is_laid_out() {
    let card = make_drag_preview_image(&preview(260, 36, None));
    assert_eq!(card.text, "main.rs");
    assert_eq!(card.border.origin.x, POINT / 2);
    assert_eq!(card.border.size.width, 259 * POINT);
    assert_eq!(card.border.size.height, 35 * POINT);
    assert_eq!(card.text_frame.origin, points(12, 9));
    assert_eq!(card.text_frame.size.width, 236 * POINT);
    assert_eq!(card.text_frame.size.height, 18 * POINT);
    assert_eq!(
        card.style.fill,
        Color {
            red: 41,
            green: 43,
            blue: 48
        }
    );
    assert_eq!(card.style.border.red, 72);
    assert_eq!(card.style.text.blue, 237);
    assert_eq!(card.style.corner_radius, 6 * POINT);
    assert_eq!(card.style.font_size, 13 * POINT);
    assert_eq!(card.style.line_width, POINT);
    let small = make_drag_preview_image(&preview(1, 1, None));
    assert_eq!(small.size.width, 64 * POINT);
    assert_eq!(small.size.height, 24 * POINT);
    let large = make_drag_preview_image(&preview(5000, 5000, None));
    assert_eq!(large.size.width, 1024 * POINT);
    assert_eq!(large.size.height, 256 * POINT);
}

#[test]
fn started_session_is_set_up() {
    let mut pointer = PointerState::new();
    let tab = custom("tab", &[5], None);
    assert_eq!(pointer.session_asked_for(&tab, false), None);
    assert_eq!(pointer.synthetic_drag_counter, 0);
    assert_eq!(
        pointer.session_asked_for(&tab, true),
        Some(SessionSetup {
            stay_on_cancel: true,
            preserve_formation: true
        })
    );
    assert_eq!(pointer.synthetic_drag_counter, 1);
    let files = ExternalDragPayload::Files(vec![file(b"/a", false)]);
    assert_eq!(
        pointer.session_asked_for(&files, true),
        Some(SessionSetup {
            stay_on_cancel: false,
            preserve_formation: false
        })
    );
}

#[test]
fn started_drag_enters_unchanged() {
    let items = start_external_drag(&custom("größe", &[0, 7], None), Some(points(1, 2)))
        .expect("items");
    let DraggingContent::Custom(data) = &items[0].content else {
        panic!("another item");
    };
    let mut info = info(None, None, None);
    info.custom_data = Some(data.clone());
    match dragging_entered(&mut Some(1), &info, WINDOW, HEIGHT).call.expect("a call").event {
        DragInput::Custom(CustomDragEvent::Entered { drag_type, data, .. }) => {
            assert_eq!(drag_type, "größe");
            assert_eq!(data, [0, 7]);
        }
        _ => panic!("another event"),
    }
}

#[test]
fn extensions_are_those_of_the_standard_library() {
    let mut paths = vec![String::new()];
    for length in 0..7 {
        let longest: Vec<String> =
            paths.iter().filter(|path| path.len() == length).cloned().collect();
        for path in longest {
            for c in ["a", ".", "/"] {
                paths.push(format!("{path}{c}"));
            }
        }
    }
    assert_eq!(paths.len(), 3280);
    for path in ["/tmp/größe.jpé", "x.日本", "/a/b.c/..", "main.rs/", "./.", ".gitignore"] {
        paths.push(path.to_string());
    }
    for path in paths {
        let expected = Path::new(&path).extension().and_then(|extension| extension.to_str());
        assert_eq!(path_extension(path.as_bytes()).as_deref(), expected, "{path:?}");
    }
}

#[test]
fn extensions_need_utf8_only_in_themselves() {
    assert_eq!(path_extension(b"/\xff/a.rs").as_deref(), Some("rs"));
    assert_eq!(path_extension(b"/\xff.rs/.").as_deref(), Some("rs"));
    assert_eq!(path_extension(b"/a.\xff"), None);
    assert_eq!(path_extension(b"/a.rs/").as_deref(), Some("rs"));
    assert_eq!(path_extension(b"/a."), Some(String::new()));
}
