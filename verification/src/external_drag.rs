//! Drags that leave the window: what is put on the pasteboard, and what is seen under the pointer.

use vstd::prelude::*;
use vstd::utf8::encode_utf8;

use crate::drag_payload::{decode_inverts_encode, decoded_payload};
use crate::drag_payload::{encode_custom_drag_payload, encoded_payload};
use crate::file_paths::{extension_text, path_extension};
use crate::geometry::{everyday_point, point_at, saturate, Pixels, Point, Rect, Size, POINT};
use crate::rounding::{double, double_is_close, to_double};
use crate::pointer::{drag_begun, PointerState};

verus! {

/// A card with a text, to be shown under the pointer.
pub struct ExternalDragPreview {
    pub text: String,
    pub width: u32,
    pub height: u32,
    /// Where the pointer is on the card, from its top-left corner.
    pub cursor_offset: Option<Point>,
}

/// A file or a directory to drag. The path need not be UTF-8.
pub struct DragFile {
    pub path: Vec<u8>,
    pub is_directory: bool,
}

/// What is dragged.
pub enum ExternalDragPayload {
    Files(Vec<DragFile>),
    Custom { drag_type: String, data: Vec<u8>, preview: Option<ExternalDragPreview> },
}

/// Why a drag does not start.
#[derive(Clone, Copy, Debug, PartialEq, Eq, Structural)]
pub enum DragDeclined {
    /// There are no files to drag.
    NoPaths,
    /// The left button is not down.
    NoMouseDown,
    /// The type or the data of a custom payload is empty.
    EmptyPayload,
}

/// What is put on the pasteboard.
pub enum DraggingContent {
    /// Data for custom drags.
    Custom(Vec<u8>),
    /// A URL for the file with the index `file` in the payload.
    File { file: usize },
}

/// What is seen of a dragged item; the frames are relative to the item's frame.
pub enum DragImage {
    Card(DragCard),
    /// The icon of a file type.
    Icon { file_type: String, frame: Rect },
}

/// A colour in sRGB.
#[derive(Clone, Copy, Debug, PartialEq, Eq, Structural)]
pub struct Color {
    pub red: u8,
    pub green: u8,
    pub blue: u8,
}

/// How a card is drawn.
#[derive(Clone, Copy, Debug, PartialEq, Eq, Structural)]
pub struct CardStyle {
    pub fill: Color,
    pub border: Color,
    pub text: Color,
    pub corner_radius: Pixels,
    pub line_width: Pixels,
    pub font_size: Pixels,
}

/// A card: a filled, rounded rectangle with a border, and a line of text that is cut off at the
/// end.
pub struct DragCard {
    pub size: Size,
    pub border: Rect,
    pub text_frame: Rect,
    pub text: String,
    pub style: CardStyle,
}

/// An item of a drag. Its frame is relative to the bottom-left corner of the window.
pub struct DraggingItem {
    pub content: DraggingContent,
    pub frame: Rect,
    pub image: DragImage,
}

/// The view of a [`DraggingContent`].
pub enum DraggingContentView {
    Custom(Seq<u8>),
    File { file: int },
}

/// The view of a [`DragImage`].
pub enum DragImageView {
    Card { size: Size, border: Rect, text_frame: Rect, text: Seq<char>, style: CardStyle },
    Icon { file_type: Seq<char>, frame: Rect },
}

/// The view of a [`DraggingItem`].
pub struct DraggingItemView {
    pub content: DraggingContentView,
    pub frame: Rect,
    pub image: DragImageView,
}

impl View for DraggingItem {
    type V = DraggingItemView;

    open spec fn view(&self) -> DraggingItemView {
        DraggingItemView {
            content: match self.content {
                DraggingContent::Custom(data) => DraggingContentView::Custom(data@),
                DraggingContent::File { file } => DraggingContentView::File { file: file as int },
            },
            frame: self.frame,
            image: match self.image {
                DragImage::Card(card) => DragImageView::Card {
                    size: card.size,
                    border: card.border,
                    text_frame: card.text_frame,
                    text: card.text@,
                    style: card.style,
                },
                DragImage::Icon { file_type, frame } => DragImageView::Icon {
                    file_type: file_type@,
                    frame,
                },
            },
        }
    }
}

/// A whole number of points.
pub open spec fn points(value: int) -> i64 {
    (value * POINT) as i64
}

/// The value nearest to `value` from `low` to `high`.
pub open spec fn clamped(value: int, low: int, high: int) -> int {
    if value < low {
        low
    } else if value > high {
        high
    } else {
        value
    }
}

/// The size of the card for a preview: from 64 by 24 to 1024 by 256 points.
pub open spec fn card_size(preview: ExternalDragPreview) -> Size {
    Size {
        width: points(clamped(preview.width as int, 64, 1024)),
        height: points(clamped(preview.height as int, 24, 256)),
    }
}

/// The image of a card: its border runs half a point inside its edges, and its text is 18 points
/// high, in the middle, with a margin of 12 points at either side.
pub open spec fn card_image(preview: ExternalDragPreview) -> DragImageView {
    let size = card_size(preview);
    DragImageView::Card {
        size,
        border: Rect {
            origin: Point { x: (POINT / 2) as i64, y: (POINT / 2) as i64 },
            size: Size { width: (size.width - POINT) as i64, height: (size.height - POINT) as i64 },
        },
        text_frame: Rect {
            origin: Point { x: points(12), y: ((size.height - points(18)) / 2) as i64 },
            size: Size { width: (size.width - points(24)) as i64, height: points(18) },
        },
        text: preview.text@,
        style: card_style(),
    }
}

/// The style of every card: light text on a dark ground.
pub open spec fn card_style() -> CardStyle {
    CardStyle {
        fill: Color { red: 41, green: 43, blue: 48 },
        border: Color { red: 72, green: 75, blue: 82 },
        text: Color { red: 232, green: 234, blue: 237 },
        corner_radius: points(6),
        line_width: points(1),
        font_size: points(13),
    }
}

/// The frame of an item without a card: 180 by 36 points, with the pointer 28 points from the left
/// and 18 points from the bottom.
pub open spec fn default_frame(location: Point) -> Rect {
    Rect {
        origin: point_at(double(location.x - points(28)), double(location.y - points(18))),
        size: Size { width: points(180), height: points(36) },
    }
}

/// The frame of a card, with the pointer where the preview wants it, or 28 points from the left
/// and in the middle.
pub open spec fn card_frame(preview: ExternalDragPreview, location: Point) -> Rect {
    let size = card_size(preview);
    let offset = match preview.cursor_offset {
        Some(offset) => offset,
        None => Point { x: points(28), y: (size.height / 2) as i64 },
    };
    Rect {
        origin: point_at(
            double(location.x - offset.x),
            double(double(location.y + offset.y) - size.height),
        ),
        size,
    }
}

/// A square icon of the given size.
pub open spec fn icon_image(file_type: Seq<char>, size: int) -> DragImageView {
    DragImageView::Icon {
        file_type,
        frame: Rect {
            origin: Point { x: 0, y: 0 },
            size: Size { width: points(size), height: points(size) },
        },
    }
}

/// The item of a custom drag.
pub open spec fn custom_item(
    drag_type: Seq<char>,
    data: Seq<u8>,
    preview: Option<ExternalDragPreview>,
    location: Point,
) -> DraggingItemView {
    DraggingItemView {
        content: DraggingContentView::Custom(encoded_payload(drag_type, data)),
        frame: match preview {
            Some(preview) => card_frame(preview, location),
            None => default_frame(location),
        },
        image: match preview {
            Some(preview) => card_image(preview),
            None => icon_image("public.text"@, 36),
        },
    }
}

/// Whether a path can be handed to AppKit, which takes it as a C string.
pub open spec fn is_c_string(path: Seq<u8>) -> bool {
    !path.contains(0u8)
}

/// The file type whose icon stands for a file: its extension, if that is UTF-8.
pub open spec fn file_type_of(file: DragFile) -> Seq<char> {
    if file.is_directory {
        "public.folder"@
    } else {
        match extension_text(file.path@) {
            Some(extension) => extension,
            None => "public.data"@,
        }
    }
}

/// The item of the file with the index `i`.
pub open spec fn file_item(files: Seq<DragFile>, i: int, location: Point) -> DraggingItemView {
    DraggingItemView {
        content: DraggingContentView::File { file: i },
        frame: default_frame(location),
        image: icon_image(file_type_of(files[i]), 32),
    }
}

/// The items of the first `n` files, without those whose path cannot be handed to AppKit.
pub open spec fn file_items(files: Seq<DragFile>, n: int, location: Point) -> Seq<DraggingItemView>
    decreases n,
{
    if n <= 0 {
        Seq::empty()
    } else if is_c_string(files[n - 1].path@) {
        file_items(files, n - 1, location).push(file_item(files, n - 1, location))
    } else {
        file_items(files, n - 1, location)
    }
}

/// Why a drag does not start, or `None` if its items can be made. `location` is where the left
/// button went down, if it is down.
pub open spec fn declined(
    payload: ExternalDragPayload,
    location: Option<Point>,
) -> Option<DragDeclined> {
    match payload {
        ExternalDragPayload::Files(files) => if files@.len() == 0 {
            Some(DragDeclined::NoPaths)
        } else if location is None {
            Some(DragDeclined::NoMouseDown)
        } else {
            None
        },
        ExternalDragPayload::Custom { drag_type, data, .. } => if location is None {
            Some(DragDeclined::NoMouseDown)
        } else if drag_type@.len() == 0 || data@.len() == 0 {
            Some(DragDeclined::EmptyPayload)
        } else {
            None
        },
    }
}

/// The items of a drag.
pub open spec fn dragging_items(payload: ExternalDragPayload, location: Point) -> Seq<
    DraggingItemView,
> {
    match payload {
        ExternalDragPayload::Files(files) => file_items(files@, files@.len() as int, location),
        ExternalDragPayload::Custom { drag_type, data, preview } => seq![
            custom_item(drag_type@, data@, preview, location),
        ],
    }
}

/// The views of a list of items.
pub open spec fn item_views(items: Seq<DraggingItem>) -> Seq<DraggingItemView> {
    items.map_values(|item: DraggingItem| item@)
}

fn clamp(value: u32, low: u32, high: u32) -> (result: u32)
    requires
        low <= high,
    ensures
        result == clamped(value as int, low as int, high as int),
{
    if value < low {
        low
    } else if value > high {
        high
    } else {
        value
    }
}

/// Lays out the card of a preview.
pub fn make_drag_preview_image(preview: &ExternalDragPreview) -> (card: DragCard)
    ensures
        card_image(*preview) == (DragImageView::Card {
            size: card.size,
            border: card.border,
            text_frame: card.text_frame,
            text: card.text@,
            style: card.style,
        }),
        card.size == card_size(*preview),
{
    let width: Pixels = clamp(preview.width, 64, 1024) as i64 * POINT;
    let height: Pixels = clamp(preview.height, 24, 256) as i64 * POINT;
    DragCard {
        size: Size { width, height },
        border: Rect {
            origin: Point { x: POINT / 2, y: POINT / 2 },
            size: Size { width: width - POINT, height: height - POINT },
        },
        text_frame: Rect {
            origin: Point { x: 12 * POINT, y: (height - 18 * POINT) / 2 },
            size: Size { width: width - 24 * POINT, height: 18 * POINT },
        },
        text: preview.text.clone(),
        style: CardStyle {
            fill: Color { red: 41, green: 43, blue: 48 },
            border: Color { red: 72, green: 75, blue: 82 },
            text: Color { red: 232, green: 234, blue: 237 },
            corner_radius: 6 * POINT,
            line_width: POINT,
            font_size: 13 * POINT,
        },
    }
}

/// Computes [`default_frame`].
fn item_frame(location: Point) -> (frame: Rect)
    ensures
        frame == default_frame(location),
{
    Rect {
        origin: Point {
            x: saturate(to_double(location.x as i128 - (28 * POINT) as i128)),
            y: saturate(to_double(location.y as i128 - (18 * POINT) as i128)),
        },
        size: Size { width: 180 * POINT, height: 36 * POINT },
    }
}

/// Computes [`card_frame`] for a card of the given size.
fn preview_frame(preview: &ExternalDragPreview, size: Size, location: Point) -> (frame: Rect)
    requires
        size == card_size(*preview),
    ensures
        frame == card_frame(*preview, location),
{
    let offset: Point = match preview.cursor_offset {
        Some(offset) => offset,
        None => Point { x: 28 * POINT, y: size.height / 2 },
    };
    Rect {
        origin: Point {
            x: saturate(to_double(location.x as i128 - offset.x as i128)),
            y: saturate(
                to_double(
                    to_double(location.y as i128 + offset.y as i128) - size.height as i128,
                ),
            ),
        },
        size,
    }
}

fn icon(file_type: String, size: i64) -> (image: DragImage)
    requires
        0 <= size <= 36,
    ensures
        image matches DragImage::Icon { file_type: shown, frame } && icon_image(
            file_type@,
            size as int,
        ) == (DragImageView::Icon { file_type: shown@, frame }),
{
    DragImage::Icon {
        file_type,
        frame: Rect {
            origin: Point { x: 0, y: 0 },
            size: Size { width: size * POINT, height: size * POINT },
        },
    }
}

/// Decides [`is_c_string`].
fn has_no_nul(path: &[u8]) -> (result: bool)
    ensures
        result == is_c_string(path@),
{
    let mut i: usize = 0;
    while i < path.len()
        invariant
            i <= path@.len(),
            forall|j: int| 0 <= j < i ==> path@[j] != 0,
        decreases path@.len() - i,
    {
        if path[i] == 0 {
            assert(path@.contains(path@[i as int]));
            return false;
        }
        i += 1;
    }
    true
}

fn file_type(file: &DragFile) -> (result: String)
    ensures
        result@ == file_type_of(*file),
{
    if file.is_directory {
        "public.folder".to_string()
    } else {
        match path_extension(file.path.as_slice()) {
            Some(extension) => extension,
            None => "public.data".to_string(),
        }
    }
}

/// The items of a drag that is to start where the left button went down.
pub fn start_external_drag(
    payload: &ExternalDragPayload,
    location: Option<Point>,
) -> (result: Result<Vec<DraggingItem>, DragDeclined>)
    ensures
        match declined(*payload, location) {
            Some(reason) => result == Err::<Vec<DraggingItem>, DragDeclined>(reason),
            None => result is Ok && location is Some && item_views(result->Ok_0@)
                == dragging_items(*payload, location->0),
        },
{
    match payload {
        ExternalDragPayload::Files(files) => {
            if files.len() == 0 {
                return Err(DragDeclined::NoPaths);
            }
            let location: Point = match location {
                Some(location) => location,
                None => return Err(DragDeclined::NoMouseDown),
            };
            let mut items: Vec<DraggingItem> = Vec::new();
            let mut i: usize = 0;
            while i < files.len()
                invariant
                    i <= files@.len(),
                    item_views(items@) =~= file_items(files@, i as int, location),
                decreases files@.len() - i,
            {
                let file = &files[i];
                if has_no_nul(file.path.as_slice()) {
                    items.push(
                        DraggingItem {
                            content: DraggingContent::File { file: i },
                            frame: item_frame(location),
                            image: icon(file_type(file), 32),
                        },
                    );
                }
                i += 1;
            }
            Ok(items)
        },
        ExternalDragPayload::Custom { drag_type, data, preview } => {
            let location: Point = match location {
                Some(location) => location,
                None => return Err(DragDeclined::NoMouseDown),
            };
            if drag_type.as_str().unicode_len() == 0 || data.len() == 0 {
                return Err(DragDeclined::EmptyPayload);
            }
            let content = DraggingContent::Custom(
                encode_custom_drag_payload(drag_type.as_str(), data.as_slice()),
            );
            let item = match preview {
                Some(preview) => {
                    let card = make_drag_preview_image(preview);
                    DraggingItem {
                        content,
                        frame: preview_frame(preview, card.size, location),
                        image: DragImage::Card(card),
                    }
                },
                None => DraggingItem {
                    content,
                    frame: item_frame(location),
                    image: icon("public.text".to_string(), 36),
                },
            };
            let mut items: Vec<DraggingItem> = Vec::new();
            items.push(item);
            assert(item_views(items@) =~= dragging_items(*payload, location));
            Ok(items)
        },
    }
}

/// Whether a dragging session is begun, when AppKit could make `made` of the items.
pub fn may_begin_session(made: usize) -> (result: bool)
    ensures
        result == (made > 0),
{
    made > 0
}

/// What is done to a dragging session that has begun.
#[derive(Clone, Copy, Debug, PartialEq, Eq, Structural)]
pub struct SessionSetup {
    /// The image does not slide back when nobody takes the drop: the source may want to do
    /// something else about it.
    pub stay_on_cancel: bool,
    /// The dragged images stay where they were put.
    pub preserve_formation: bool,
}

/// What is done to a dragging session, if it started.
pub open spec fn session_setup(payload: ExternalDragPayload, started: bool) -> Option<SessionSetup> {
    if started {
        Some(SessionSetup { stay_on_cancel: payload is Custom, preserve_formation: payload is Custom })
    } else {
        None
    }
}

impl PointerState {
    /// A dragging session was asked for. Says what is done to it, if it started.
    pub fn session_asked_for(&mut self, payload: &ExternalDragPayload, started: bool) -> (setup:
        Option<SessionSetup>)
        requires
            started ==> old(self).synthetic_drag_counter < usize::MAX,
        ensures
            setup == session_setup(*payload, started),
            *final(self) == if started {
                drag_begun(*old(self))
            } else {
                *old(self)
            },
            setup == if started {
                Some(
                    SessionSetup {
                        stay_on_cancel: payload is Custom,
                        preserve_formation: payload is Custom,
                    },
                )
            } else {
                None
            },
            *final(self) == if started {
                PointerState {
                    synthetic_drag_counter: (old(self).synthetic_drag_counter + 1) as usize,
                    ..*old(self)
                }
            } else {
                *old(self)
            },
    {
        if started {
            self.external_drag_started();
            let custom = match payload {
                ExternalDragPayload::Custom { .. } => true,
                ExternalDragPayload::Files(_) => false,
            };
            Some(SessionSetup { stay_on_cancel: custom, preserve_formation: custom })
        } else {
            None
        }
    }
}

/// The items of a drag of files stand for the files that can be dragged, each for one, in their
/// order.
pub proof fn files_keep_their_order(files: Seq<DragFile>, n: int, location: Point, i: int, j: int)
    requires
        0 <= n <= files.len(),
        0 <= i < j < file_items(files, n, location).len(),
    ensures
        ({
            let items = file_items(files, n, location);
            &&& items[i].content is File && items[j].content is File
            &&& 0 <= items[i].content->file < items[j].content->file < n
            &&& is_c_string(files[items[i].content->file].path@)
            &&& is_c_string(files[items[j].content->file].path@)
        }),
{
    lemma_file_item_indices(files, n, location);
}

proof fn lemma_file_item_indices(files: Seq<DragFile>, n: int, location: Point)
    requires
        0 <= n <= files.len(),
    ensures
        ({
            let items = file_items(files, n, location);
            &&& forall|i: int|
                0 <= i < items.len() ==> (#[trigger] items[i]).content is File && 0
                    <= items[i].content->file < n && is_c_string(
                    files[items[i].content->file].path@,
                )
            &&& forall|i: int, j: int|
                0 <= i < j < items.len() ==> (#[trigger] items[i]).content->file < (
                #[trigger] items[j]).content->file
        }),
    decreases n,
{
    if n > 0 {
        lemma_file_item_indices(files, n - 1, location);
    }
}

/// A file is dragged exactly if its path can be handed to AppKit.
pub proof fn every_path_without_nul_is_dragged(
    files: Seq<DragFile>,
    n: int,
    location: Point,
    file: int,
)
    requires
        0 <= file < n <= files.len(),
    ensures
        is_c_string(files[file].path@) == file_items(files, n, location).contains(
            file_item(files, file, location),
        ),
    decreases n,
{
    let items = file_items(files, n, location);
    if file < n - 1 {
        let before = file_items(files, n - 1, location);
        every_path_without_nul_is_dragged(files, n - 1, location, file);
        if is_c_string(files[n - 1].path@) {
            assert(items =~= before.push(file_item(files, n - 1, location)));
            if before.contains(file_item(files, file, location)) {
                let k = choose|k: int|
                    0 <= k < before.len() && before[k] == file_item(files, file, location);
                assert(items[k] == file_item(files, file, location));
            }
            if items.contains(file_item(files, file, location)) {
                let k = choose|k: int|
                    0 <= k < items.len() && items[k] == file_item(files, file, location);
                assert(items[k].content->file == file);
                assert(k < before.len());
                assert(before[k] == file_item(files, file, location));
            }
        }
    } else if is_c_string(files[file].path@) {
        assert(items.last() == file_item(files, file, location));
        assert(items[items.len() - 1] == items.last());
    } else {
        lemma_file_item_indices(files, n, location);
        if items.contains(file_item(files, file, location)) {
            let k = choose|k: int|
                0 <= k < items.len() && items[k] == file_item(files, file, location);
            assert(items[k].content->file == file);
        }
    }
}

/// A card that does not say where the pointer is on it has the pointer inside.
pub proof fn pointer_is_on_the_card(preview: ExternalDragPreview, location: Point)
    requires
        preview.cursor_offset is None,
    ensures
        ({
            let frame = card_frame(preview, location);
            &&& frame.origin.x <= location.x <= frame.origin.x + frame.size.width
            &&& frame.origin.y <= location.y <= frame.origin.y + frame.size.height
        }),
{
    let size = card_size(preview);
    let raised = location.y + (size.height / 2) as i64;
    double_is_close(location.x - points(28));
    double_is_close(raised);
    double_is_close(double(raised) - size.height);
}

/// The text of a card stays within its border.
pub proof fn text_stays_on_the_card(preview: ExternalDragPreview)
    ensures
        ({
            let image = card_image(preview);
            let border = image->border;
            let text_frame = image->text_frame;
            &&& image is Card
            &&& border.origin.x <= text_frame.origin.x
            &&& text_frame.origin.x + text_frame.size.width <= border.origin.x + border.size.width
            &&& border.origin.y <= text_frame.origin.y
            &&& text_frame.origin.y + text_frame.size.height <= border.origin.y
                + border.size.height
            &&& text_frame.size.width > 0
        }),
{
}

/// A drag starts exactly if the left button is down and there is something to drag: at least one
/// file, or a custom payload with a type and with data. Else the reason is told, and of files it is
/// told first that there are none.
pub proof fn drags_start_with_something_to_drag(
    payload: ExternalDragPayload,
    location: Option<Point>,
)
    ensures
        payload matches ExternalDragPayload::Files(files) ==> {
            &&& declined(payload, location) == Some(DragDeclined::NoPaths) <==> files@.len() == 0
            &&& declined(payload, location) == Some(DragDeclined::NoMouseDown) <==> files@.len() > 0
                && location is None
            &&& declined(payload, location) is None <==> files@.len() > 0 && location is Some
        },
        payload matches ExternalDragPayload::Custom { drag_type, data, .. } ==> {
            let empty = drag_type@.len() == 0 || data@.len() == 0;
            &&& declined(payload, location) == Some(DragDeclined::NoMouseDown) <==> location is None
            &&& declined(payload, location) == Some(DragDeclined::EmptyPayload) <==> location
                is Some && empty
            &&& declined(payload, location) is None <==> location is Some && !empty
        },
{
}

/// A custom payload is dragged as one item, whose data say its type and its data. Its card is as
/// large as asked for, within limits, and hangs at the pointer as asked for, or with the pointer 28
/// points from the left and half way up; without a card, an icon of 36 points hangs in a frame of
/// 180 by 36 points with the pointer 28 points from the left and 18 from the bottom.
pub proof fn custom_payloads_are_dragged_as_one_item(
    drag_type: String,
    data: Vec<u8>,
    preview: Option<ExternalDragPreview>,
    location: Point,
)
    requires
        encode_utf8(drag_type@).len() < 0x1_0000_0000,
        everyday_point(location),
        preview matches Some(preview) ==> preview.cursor_offset matches Some(offset)
            ==> everyday_point(offset),
    ensures
        ({
            let payload = ExternalDragPayload::Custom { drag_type, data, preview };
            let items = dragging_items(payload, location);
            let item = items[0];
            let point = 0x1_0000_0000int;
            let right = location.x - item.frame.origin.x;
            let up = location.y - item.frame.origin.y;
            let down = item.frame.size.height - up;
            &&& items.len() == 1
            &&& item.content is Custom
            &&& decoded_payload(item.content->Custom_0) == Some((drag_type@, data@))
            &&& preview is None ==> {
                &&& right == 28 * point && up == 18 * point
                &&& item.frame.size.width == 180 * point && item.frame.size.height == 36 * point
                &&& item.image is Icon && item.image->file_type == "public.text"@
                &&& item.image->frame.origin == (Point { x: 0, y: 0 })
                &&& item.image->frame.size.width == 36 * point
                &&& item.image->frame.size.height == 36 * point
            }
            &&& preview matches Some(preview) ==> {
                let size = item.frame.size;
                &&& preview.width < 64 ==> size.width == 64 * point
                &&& 64 <= preview.width <= 1024 ==> size.width == preview.width * point
                &&& preview.width > 1024 ==> size.width == 1024 * point
                &&& preview.height < 24 ==> size.height == 24 * point
                &&& 24 <= preview.height <= 256 ==> size.height == preview.height * point
                &&& preview.height > 256 ==> size.height == 256 * point
                &&& item.image is Card && item.image->size == size
                &&& item.image->text == preview.text@
                &&& preview.cursor_offset matches Some(offset) ==> right == offset.x && down
                    == offset.y
                &&& preview.cursor_offset is None ==> right == 28 * point && up == down
            }
        }),
{
    decode_inverts_encode(drag_type@, data@);
}

/// On a card, the border runs half a point inside the edges, and the text is 18 points high, as far
/// from the top as from the bottom, and 12 points from either side.
pub proof fn cards_are_laid_out_evenly(preview: ExternalDragPreview)
    ensures
        ({
            let image = card_image(preview);
            let size = image->size;
            let border = image->border;
            let text = image->text_frame;
            let point = 0x1_0000_0000int;
            &&& image is Card
            &&& 2 * border.origin.x == point && 2 * border.origin.y == point
            &&& 2 * border.origin.x + border.size.width == size.width
            &&& 2 * border.origin.y + border.size.height == size.height
            &&& text.size.height == 18 * point
            &&& 2 * text.origin.y + text.size.height == size.height
            &&& text.origin.x == 12 * point
            &&& 2 * text.origin.x + text.size.width == size.width
        }),
{
}

/// Files are dragged one by one: each item is that of a file whose path can be handed to AppKit, at
/// the pointer, with an icon of 32 points for a folder, for the extension of the file, or for plain
/// data.
pub proof fn files_are_dragged_with_their_icons(files: Vec<DragFile>, location: Point, k: int)
    requires
        everyday_point(location),
        0 <= k < dragging_items(ExternalDragPayload::Files(files), location).len(),
    ensures
        ({
            let item = dragging_items(ExternalDragPayload::Files(files), location)[k];
            let file = files@[item.content->file];
            let point = 0x1_0000_0000int;
            &&& item.content is File
            &&& 0 <= item.content->file < files@.len()
            &&& !file.path@.contains(0u8)
            &&& location.x - item.frame.origin.x == 28 * point
            &&& location.y - item.frame.origin.y == 18 * point
            &&& item.frame.size.width == 180 * point && item.frame.size.height == 36 * point
            &&& item.image is Icon
            &&& item.image->frame.origin == (Point { x: 0, y: 0 })
            &&& item.image->frame.size.width == 32 * point
            &&& item.image->frame.size.height == 32 * point
            &&& file.is_directory ==> item.image->file_type == "public.folder"@
            &&& !file.is_directory && extension_text(file.path@) is Some
                ==> item.image->file_type == extension_text(file.path@)->0
            &&& !file.is_directory && extension_text(file.path@) is None
                ==> item.image->file_type == "public.data"@
        }),
{
    lemma_file_item_indices(files@, files@.len() as int, location);
    lemma_items_are_those_of_files(files@, files@.len() as int, location, k);
}

proof fn lemma_items_are_those_of_files(files: Seq<DragFile>, n: int, location: Point, k: int)
    requires
        0 <= n <= files.len(),
        0 <= k < file_items(files, n, location).len(),
    ensures
        ({
            let item = file_items(files, n, location)[k];
            item == file_item(files, item.content->file, location)
        }),
    decreases n,
{
    if n > 0 {
        let before = file_items(files, n - 1, location);
        if k < before.len() {
            lemma_items_are_those_of_files(files, n - 1, location, k);
        }
    }
}

/// Every file whose path can be handed to AppKit is among the dragged items.
pub proof fn no_file_is_forgotten(files: Vec<DragFile>, location: Point, file: int)
    requires
        0 <= file < files@.len(),
        !files@[file].path@.contains(0u8),
    ensures
        exists|k: int|
            0 <= k < dragging_items(ExternalDragPayload::Files(files), location).len() && (
            #[trigger] dragging_items(ExternalDragPayload::Files(files), location)[k]).content
                == (DraggingContentView::File { file }),
{
    let items = dragging_items(ExternalDragPayload::Files(files), location);
    every_path_without_nul_is_dragged(files@, files@.len() as int, location, file);
    let k = choose|k: int| 0 <= k < items.len() && items[k] == file_item(files@, file, location);
    assert(items[k].content == (DraggingContentView::File { file }));
}

/// A session that started is set up by what it carries: a custom payload does not slide back and
/// keeps its formation, files do both. A session that did not start is not set up.
pub proof fn sessions_are_set_up_by_what_they_carry(payload: ExternalDragPayload)
    ensures
        session_setup(payload, false) is None,
        session_setup(payload, true) matches Some(setup) && setup.stay_on_cancel == (payload
            is Custom) && setup.preserve_formation == (payload is Custom),
{
}

} // verus!
