//! Plane geometry in logical points.
//!
//! A coordinate is a fixed-point number with 32 fractional bits, held in an `i64`: it represents
//! exactly every multiple of `2^-32` points up to `2^31` points. Frames and points of AppKit are
//! numbers in double precision, those of the application in single precision: every sum and every
//! difference is rounded to the precision that it is computed in, and a result beyond the range of
//! a coordinate saturates.

use vstd::prelude::*;

use crate::drag_bounds::leaves;
use crate::rounding::{double, double_is_close, is_double, is_single, single, single_is_close};
use crate::rounding::{is_everyday, rounding_is_idempotent, to_double, to_single};

verus! {

/// A length or a coordinate, in units of `1 / POINT` logical points.
pub type Pixels = i64;

/// One logical point.
pub const POINT: i64 = 4_294_967_296;

#[derive(Clone, Copy, Debug, PartialEq, Eq, Structural)]
pub struct Point {
    pub x: Pixels,
    pub y: Pixels,
}

#[derive(Clone, Copy, Debug, PartialEq, Eq, Structural)]
pub struct Size {
    pub width: Pixels,
    pub height: Pixels,
}

/// An axis-parallel rectangle. Whether `origin` is the bottom-left corner (AppKit frames) or the
/// top-left one (window bounds) depends on where the rectangle comes from.
#[derive(Clone, Copy, Debug, PartialEq, Eq, Structural)]
pub struct Rect {
    pub origin: Point,
    pub size: Size,
}

/// The coordinate nearest to `value`, which is one but for its range.
pub open spec fn saturated(value: int) -> int {
    if value < i64::MIN {
        i64::MIN as int
    } else if value > i64::MAX {
        i64::MAX as int
    } else {
        value
    }
}

/// Brings a result into the range of a coordinate.
pub fn saturate(value: i128) -> (result: Pixels)
    ensures
        result == saturated(value as int),
{
    if value < i64::MIN as i128 {
        i64::MIN
    } else if value > i64::MAX as i128 {
        i64::MAX
    } else {
        value as i64
    }
}

/// The point nearest to the one with the coordinates `x` and `y`.
pub open spec fn point_at(x: int, y: int) -> Point {
    Point { x: saturated(x) as i64, y: saturated(y) as i64 }
}

/// A size that AppKit gave, in single precision.
pub open spec fn single_size(size: Size) -> Size {
    Size {
        width: saturated(single(size.width as int)) as i64,
        height: saturated(single(size.height as int)) as i64,
    }
}

/// Rounds a size that AppKit gave to single precision.
pub fn convert_size(size: Size) -> (result: Size)
    ensures
        result == single_size(size),
{
    Size {
        width: saturate(to_single(size.width as i128)),
        height: saturate(to_single(size.height as i128)),
    }
}

/// The rectangle at the origin without extent.
pub open spec fn empty_rect() -> Rect {
    Rect { origin: Point { x: 0, y: 0 }, size: Size { width: 0, height: 0 } }
}

/// The position relative to the top-left corner of a window that is at `position` relative to the
/// bottom-left corner.
pub open spec fn converted_position(position: Point, window_height: Pixels) -> Point {
    point_at(single(position.x as int), single(window_height - single(position.y as int)))
}

/// Turns a position relative to the bottom-left corner of a window into one relative to the
/// top-left corner.
pub fn convert_mouse_position(position: Point, window_height: Pixels) -> (result: Point)
    ensures
        result == converted_position(position, window_height),
{
    Point {
        x: saturate(to_single(position.x as i128)),
        y: saturate(to_single(window_height as i128 - to_single(position.y as i128))),
    }
}

/// The bounds that a window with the AppKit frame `window_frame` has on its screen, with the
/// origin in the top-left corner. A window on no screen gets `default_size` at the origin.
pub open spec fn window_bounds_of(
    window_frame: Rect,
    screen_frame: Option<Rect>,
    default_size: Size,
) -> Rect {
    match screen_frame {
        None => Rect { origin: Point { x: 0, y: 0 }, size: default_size },
        Some(screen) => {
            let top = double(
                double(screen.size.height - window_frame.origin.y) - window_frame.size.height,
            );
            Rect {
                origin: point_at(
                    single(double(window_frame.origin.x - screen.origin.x)),
                    single(double(top + screen.origin.y)),
                ),
                size: single_size(window_frame.size),
            }
        },
    }
}

/// Computes the bounds of a window from its AppKit frame.
pub fn bounds_on_screen(
    window_frame: Rect,
    screen_frame: Option<Rect>,
    default_size: Size,
) -> (result: Rect)
    ensures
        result == window_bounds_of(window_frame, screen_frame, default_size),
{
    match screen_frame {
        None => Rect { origin: Point { x: 0, y: 0 }, size: default_size },
        Some(screen) => {
            let x: i128 = to_double(window_frame.origin.x as i128 - screen.origin.x as i128);
            let below: i128 = to_double(
                screen.size.height as i128 - window_frame.origin.y as i128,
            );
            let top: i128 = to_double(below - window_frame.size.height as i128);
            let y: i128 = to_double(top + screen.origin.y as i128);
            Rect {
                origin: Point { x: saturate(to_single(x)), y: saturate(to_single(y)) },
                size: convert_size(window_frame.size),
            }
        },
    }
}

/// The rectangle in which a window with the given bounds opens: its origin is the top-left corner
/// in AppKit's screen coordinates.
pub open spec fn opening_rect_of(bounds: Rect, screen_frame: Rect, display_height: Pixels) -> Rect {
    Rect {
        origin: point_at(
            double(screen_frame.origin.x + bounds.origin.x),
            double(screen_frame.origin.y + single(display_height - bounds.origin.y)),
        ),
        size: bounds.size,
    }
}

/// Computes where a window opens.
pub fn opening_rect(bounds: Rect, screen_frame: Rect, display_height: Pixels) -> (result: Rect)
    ensures
        result == opening_rect_of(bounds, screen_frame, display_height),
{
    Rect {
        origin: Point {
            x: saturate(to_double(screen_frame.origin.x as i128 + bounds.origin.x as i128)),
            y: saturate(
                to_double(
                    screen_frame.origin.y as i128 + to_single(
                        display_height as i128 - bounds.origin.y as i128,
                    ),
                ),
            ),
        },
        size: bounds.size,
    }
}

/// The frame that text and drag positions are relative to: a window whose content does not extend
/// under the titlebar has its frame lowered by the height of the titlebar.
pub open spec fn content_frame_of(
    frame: Rect,
    content_layout_height: Pixels,
    full_size_content: bool,
) -> Rect {
    if full_size_content {
        frame
    } else {
        Rect {
            origin: point_at(
                frame.origin.x as int,
                double(frame.origin.y - double(frame.size.height - content_layout_height)),
            ),
            size: frame.size,
        }
    }
}

/// Computes the frame that text and drag positions are relative to.
pub fn content_frame(
    frame: Rect,
    content_layout_height: Pixels,
    full_size_content: bool,
) -> (result: Rect)
    ensures
        result == content_frame_of(frame, content_layout_height, full_size_content),
{
    if full_size_content {
        frame
    } else {
        Rect {
            origin: Point {
                x: frame.origin.x,
                y: saturate(
                    to_double(
                        frame.origin.y as i128 - to_double(
                            frame.size.height as i128 - content_layout_height as i128,
                        ),
                    ),
                ),
            },
            size: frame.size,
        }
    }
}

/// How far right of the left edge of `frame` the point of the screen is.
pub open spec fn local_x(frame: Rect, position: Point) -> int {
    double(position.x - frame.origin.x)
}

/// How far below the top edge of `frame` the point of the screen is.
pub open spec fn local_y(frame: Rect, position: Point) -> int {
    double(frame.size.height - double(position.y - frame.origin.y))
}

/// The point of the screen, relative to the top-left corner of `frame`.
pub open spec fn gpui_point_of(frame: Rect, position: Point) -> Point {
    point_at(single(local_x(frame, position)), single(local_y(frame, position)))
}

/// Turns a point on the screen into one relative to the top-left corner of `frame`.
pub fn screen_point_to_gpui_point(frame: Rect, position: Point) -> (result: Point)
    ensures
        result == gpui_point_of(frame, position),
{
    let x: i128 = to_double(position.x as i128 - frame.origin.x as i128);
    let y: i128 = to_double(
        frame.size.height as i128 - to_double(position.y as i128 - frame.origin.y as i128),
    );
    Point { x: saturate(to_single(x)), y: saturate(to_single(y)) }
}

/// The screen rectangle of `bounds`, which are relative to the top-left corner of `frame`.
pub open spec fn character_rect_of(frame: Rect, bounds: Option<Rect>) -> Rect {
    match bounds {
        None => empty_rect(),
        Some(bounds) => {
            let top = double(double(frame.origin.y + frame.size.height) - bounds.origin.y);
            Rect {
                origin: point_at(
                    double(frame.origin.x + bounds.origin.x),
                    double(top - bounds.size.height),
                ),
                size: bounds.size,
            }
        },
    }
}

/// Where on the screen the characters with the given bounds are; the empty rectangle if the input
/// handler knows no bounds for them.
pub fn first_rect_for_character_range(frame: Rect, bounds: Option<Rect>) -> (result: Rect)
    ensures
        result == character_rect_of(frame, bounds),
{
    match bounds {
        None => Rect { origin: Point { x: 0, y: 0 }, size: Size { width: 0, height: 0 } },
        Some(bounds) => {
            let frame_top: i128 = to_double(frame.origin.y as i128 + frame.size.height as i128);
            let top: i128 = to_double(frame_top - bounds.origin.y as i128);
            Rect {
                origin: Point {
                    x: saturate(to_double(frame.origin.x as i128 + bounds.origin.x as i128)),
                    y: saturate(to_double(top - bounds.size.height as i128)),
                },
                size: bounds.size,
            }
        },
    }
}

/// Whether `position`, a point on the screen, lies outside `frame`; the edges belong to `frame`.
pub open spec fn outside_frame(frame: Rect, position: Point) -> bool {
    ||| !(0 <= local_x(frame, position) <= frame.size.width)
    ||| !(0 <= local_y(frame, position) <= frame.size.height)
}

/// Decides [`outside_frame`].
pub fn released_outside(frame: Rect, position: Point) -> (result: bool)
    ensures
        result == outside_frame(frame, position),
{
    let x: i128 = to_double(position.x as i128 - frame.origin.x as i128);
    let y: i128 = to_double(
        frame.size.height as i128 - to_double(position.y as i128 - frame.origin.y as i128),
    );
    x < 0 || y < 0 || x > frame.size.width as i128 || y > frame.size.height as i128
}

/// The point of AppKit's screen coordinates, relative to the top-left corner of the screen; no
/// screen counts as the empty one at the origin.
pub open spec fn screen_position_of(position: Point, screen_frame: Option<Rect>) -> Point {
    let screen = match screen_frame {
        Some(screen) => screen,
        None => empty_rect(),
    };
    point_at(
        single(double(position.x - screen.origin.x)),
        single(double(double(screen.origin.y + screen.size.height) - position.y)),
    )
}

/// Turns a point in AppKit's screen coordinates into one relative to the top-left corner of the
/// screen.
pub fn position_on_screen(position: Point, screen_frame: Option<Rect>) -> (result: Point)
    ensures
        result == screen_position_of(position, screen_frame),
{
    let screen: Rect = match screen_frame {
        Some(screen) => screen,
        None => Rect { origin: Point { x: 0, y: 0 }, size: Size { width: 0, height: 0 } },
    };
    let x: i128 = to_double(position.x as i128 - screen.origin.x as i128);
    let screen_top: i128 = to_double(screen.origin.y as i128 + screen.size.height as i128);
    let y: i128 = to_double(screen_top - position.y as i128);
    Point { x: saturate(to_single(x)), y: saturate(to_single(y)) }
}

/// The scale factor of a window on a screen with this factor, or on none.
pub open spec fn scale_of(screen_factor: Option<Pixels>) -> int {
    match screen_factor {
        Some(factor) => if single(factor as int) == 0 {
            2 * POINT
        } else {
            saturated(single(factor as int))
        },
        None => 2 * POINT,
    }
}

/// The scale factor of a window, as a fixed-point number in single precision. A window without a
/// screen, and one whose screen reports a factor of zero, counts as a Retina window.
pub fn get_scale_factor(screen_factor: Option<Pixels>) -> (result: Pixels)
    ensures
        result == scale_of(screen_factor),
        result == match screen_factor {
            Some(factor) if single(factor as int) != 0 => saturated(single(factor as int)),
            _ => 2 * POINT,
        },
{
    match screen_factor {
        Some(factor) => {
            let factor: i128 = to_single(factor as i128);
            if factor == 0 {
                2 * POINT
            } else {
                saturate(factor)
            }
        },
        None => 2 * POINT,
    }
}

/// Whether two sizes that AppKit gave are the same in single precision.
pub open spec fn same_size(a: Size, b: Size) -> bool {
    &&& single(a.width as int) == single(b.width as int)
    &&& single(a.height as int) == single(b.height as int)
}

/// Decides [`same_size`].
pub fn sizes_agree(a: Size, b: Size) -> (result: bool)
    ensures
        result == same_size(a, b),
{
    to_single(a.width as i128) == to_single(b.width as i128) && to_single(a.height as i128)
        == to_single(b.height as i128)
}

/// Whether a window of this size fills what is visible of its screen.
pub open spec fn fills(window_size: Size, visible_size: Option<Size>) -> bool {
    match visible_size {
        Some(size) => same_size(window_size, size),
        None => same_size(window_size, Size { width: 0, height: 0 }),
    }
}

/// Whether a window of this size fills the visible part of its screen; no screen shows nothing.
pub fn fills_screen(window_size: Size, visible_size: Option<Size>) -> (result: bool)
    ensures
        result == fills(window_size, visible_size),
        result == same_size(
            window_size,
            match visible_size {
                Some(size) => size,
                None => Size { width: 0, height: 0 },
            },
        ),
{
    match visible_size {
        Some(size) => sizes_agree(window_size, size),
        None => sizes_agree(window_size, Size { width: 0, height: 0 }),
    }
}

/// Whether an exact result is a coordinate, so that nothing saturates.
pub open spec fn fits(value: int) -> bool {
    i64::MIN <= value <= i64::MAX
}

/// Whether a coordinate came back from a conversion as rounding lets it: with an error of at most
/// one part in `2^24` of `extent` and a sixty-five-thousandth of a point.
pub open spec fn close(result: int, value: int, extent: int) -> bool {
    let error = (result - value) * 0x100_0000;
    -(extent + 0x100_0000_0000) <= error <= extent + 0x100_0000_0000
}

/// The absolute value.
pub open spec fn magnitude(value: int) -> int {
    if value >= 0 {
        value
    } else {
        -value
    }
}

pub(crate) proof fn lemma_double_error(value: int)
    requires
        magnitude(value) <= 0x4_0000_0000_0000_0000,
    ensures
        -0x2000 <= double(value) - value <= 0x2000,
{
    double_is_close(value);
}

/// A coordinate that is off by no more than `error` before it is rounded to single precision.
proof fn lemma_single_of_double(computed: int, value: int, error: int)
    requires
        fits(value),
        0 <= error <= 0xE000,
        -error <= computed - value <= error,
    ensures
        close(saturated(single(computed)), value, magnitude(value)),
{
    single_is_close(computed);
}

/// Converting a mouse position twice gives the position back, if the position and the converted
/// one are numbers in single precision.
pub proof fn mouse_position_conversion_is_an_involution(position: Point, window_height: Pixels)
    requires
        fits(window_height - position.y),
        is_single(position.x as int),
        is_single(position.y as int),
        is_single(window_height - position.y),
    ensures
        converted_position(converted_position(position, window_height), window_height) == position,
{
}

/// Converting any mouse position twice gives the position back up to rounding.
pub proof fn mouse_position_comes_back_up_to_rounding(position: Point, window_height: Pixels)
    requires
        fits(window_height - position.y),
    ensures
        ({
            let result = converted_position(
                converted_position(position, window_height),
                window_height,
            );
            &&& close(result.x as int, position.x as int, 2 * magnitude(position.x as int))
            &&& close(
                result.y as int,
                position.y as int,
                5 * magnitude(position.y as int) + 5 * magnitude(window_height as int),
            )
        }),
{
    let once = converted_position(position, window_height);
    single_is_close(position.x as int);
    single_is_close(once.x as int);
    single_is_close(position.y as int);
    single_is_close(window_height - single(position.y as int));
    single_is_close(once.y as int);
    single_is_close(window_height - single(once.y as int));
}

/// The frame of a window whose top-left corner was put at the origin of `rect`.
pub open spec fn frame_below(rect: Rect) -> Rect {
    Rect {
        origin: point_at(rect.origin.x as int, rect.origin.y - rect.size.height),
        size: rect.size,
    }
}

/// A window that is put where [`opening_rect_of`] says has the bounds that it was opened with, if
/// the display is as high as its screen and no step of the way there and back is rounded.
pub proof fn opened_window_has_the_requested_bounds(
    bounds: Rect,
    screen: Rect,
    default_size: Size,
)
    requires
        fits(screen.origin.x + bounds.origin.x),
        fits(screen.origin.y + screen.size.height - bounds.origin.y),
        fits(screen.origin.y + screen.size.height - bounds.origin.y - bounds.size.height),
        is_single(bounds.origin.x as int),
        is_single(bounds.origin.y as int),
        is_single(bounds.size.width as int),
        is_single(bounds.size.height as int),
        is_single(screen.size.height - bounds.origin.y),
        is_double(bounds.origin.x as int),
        is_double(bounds.origin.y as int),
        is_double(screen.origin.x + bounds.origin.x),
        is_double(screen.origin.y + screen.size.height - bounds.origin.y),
        is_double(bounds.origin.y + bounds.size.height - screen.origin.y),
        is_double(bounds.origin.y - screen.origin.y),
    ensures
        window_bounds_of(
            frame_below(opening_rect_of(bounds, screen, screen.size.height)),
            Some(screen),
            default_size,
        ) == bounds,
{
    let rect = opening_rect_of(bounds, screen, screen.size.height);
    assert(screen.origin.y + (screen.size.height - bounds.origin.y) == screen.origin.y
        + screen.size.height - bounds.origin.y);
    let frame = frame_below(rect);
    assert(screen.size.height - frame.origin.y == bounds.origin.y + bounds.size.height
        - screen.origin.y);
    assert(bounds.origin.y + bounds.size.height - screen.origin.y - bounds.size.height
        == bounds.origin.y - screen.origin.y);
}

/// A window that is put where [`opening_rect_of`] says has the bounds that it was opened with up
/// to rounding, if the display is as high as its screen.
pub proof fn opened_window_has_about_the_requested_bounds(
    bounds: Rect,
    screen: Rect,
    default_size: Size,
)
    requires
        fits(screen.origin.x + bounds.origin.x),
        fits(screen.origin.y + screen.size.height - bounds.origin.y),
        fits(screen.origin.y + screen.size.height - bounds.origin.y - bounds.size.height),
    ensures
        ({
            let result = window_bounds_of(
                frame_below(opening_rect_of(bounds, screen, screen.size.height)),
                Some(screen),
                default_size,
            );
            &&& close(
                result.origin.x as int,
                bounds.origin.x as int,
                magnitude(bounds.origin.x as int),
            )
            &&& close(
                result.origin.y as int,
                bounds.origin.y as int,
                3 * magnitude(bounds.origin.y as int) + 2 * magnitude(screen.size.height as int),
            )
            &&& close(
                result.size.width as int,
                bounds.size.width as int,
                magnitude(bounds.size.width as int),
            )
            &&& close(
                result.size.height as int,
                bounds.size.height as int,
                magnitude(bounds.size.height as int),
            )
        }),
{
    let frame = frame_below(opening_rect_of(bounds, screen, screen.size.height));
    lemma_double_error(screen.origin.x + bounds.origin.x);
    lemma_double_error(frame.origin.x - screen.origin.x);
    lemma_single_of_double(
        double(frame.origin.x - screen.origin.x),
        bounds.origin.x as int,
        0x4000,
    );
    single_is_close(screen.size.height - bounds.origin.y);
    lemma_double_error(screen.origin.y + single(screen.size.height - bounds.origin.y));
    let below = double(screen.size.height - frame.origin.y);
    let top = double(below - frame.size.height);
    lemma_double_error(screen.size.height - frame.origin.y);
    lemma_double_error(below - frame.size.height);
    lemma_double_error(top + screen.origin.y);
    single_is_close(double(top + screen.origin.y));
    single_is_close(bounds.size.width as int);
    single_is_close(bounds.size.height as int);
}

/// The top-left corner of the rectangle that is reported for characters.
pub open spec fn character_corner(frame: Rect, bounds: Rect) -> Point {
    let rect = character_rect_of(frame, Some(bounds));
    point_at(rect.origin.x as int, rect.origin.y + rect.size.height)
}

/// The top-left corner of the rectangle that is reported for characters, taken back into the
/// window, is the corner that the input handler gave, if no step of the way there and back is
/// rounded.
pub proof fn character_rect_inverts_screen_point(frame: Rect, bounds: Rect)
    requires
        fits(frame.origin.x + bounds.origin.x),
        fits(frame.origin.y + frame.size.height - bounds.origin.y),
        fits(frame.origin.y + frame.size.height - bounds.origin.y - bounds.size.height),
        is_single(bounds.origin.x as int),
        is_single(bounds.origin.y as int),
        is_double(bounds.origin.x as int),
        is_double(bounds.origin.y as int),
        is_double(frame.origin.x + bounds.origin.x),
        is_double(frame.origin.y + frame.size.height),
        is_double(frame.origin.y + frame.size.height - bounds.origin.y),
        is_double(frame.origin.y + frame.size.height - bounds.origin.y - bounds.size.height),
        is_double(frame.size.height - bounds.origin.y),
    ensures
        gpui_point_of(frame, character_corner(frame, bounds)) == bounds.origin,
{
    let corner = character_corner(frame, bounds);
    assert(corner.y - frame.origin.y == frame.size.height - bounds.origin.y);
    assert(frame.size.height - (frame.size.height - bounds.origin.y) == bounds.origin.y);
}

/// The top-left corner of the rectangle that is reported for characters, taken back into the
/// window, is the corner that the input handler gave up to rounding.
pub proof fn character_rect_inverts_screen_point_up_to_rounding(frame: Rect, bounds: Rect)
    requires
        fits(frame.origin.x + bounds.origin.x),
        fits(frame.origin.y + frame.size.height - bounds.origin.y),
        fits(frame.origin.y + frame.size.height - bounds.origin.y - bounds.size.height),
    ensures
        ({
            let result = gpui_point_of(frame, character_corner(frame, bounds));
            &&& close(result.x as int, bounds.origin.x as int, magnitude(bounds.origin.x as int))
            &&& close(result.y as int, bounds.origin.y as int, magnitude(bounds.origin.y as int))
        }),
{
    let corner = character_corner(frame, bounds);
    let frame_top = double(frame.origin.y + frame.size.height);
    let top = double(frame_top - bounds.origin.y);
    lemma_double_error(frame.origin.x + bounds.origin.x);
    lemma_double_error(corner.x - frame.origin.x);
    lemma_single_of_double(local_x(frame, corner), bounds.origin.x as int, 0x4000);
    lemma_double_error(frame.origin.y + frame.size.height);
    lemma_double_error(frame_top - bounds.origin.y);
    lemma_double_error(top - bounds.size.height);
    lemma_double_error(corner.y - frame.origin.y);
    lemma_double_error(frame.size.height - double(corner.y - frame.origin.y));
    lemma_single_of_double(local_y(frame, corner), bounds.origin.y as int, 0xA000);
}

/// A drag is released outside a window exactly if its position in the window leaves the window as
/// the pointer of a drag without a measured preview would, if that position is a number in single
/// precision.
pub proof fn release_outside_agrees_with_drag_bounds(frame: Rect, position: Point)
    requires
        is_single(local_x(frame, position)),
        is_single(local_y(frame, position)),
        frame.size.width == i64::MAX ==> local_x(frame, position) <= i64::MAX,
        frame.size.height == i64::MAX ==> local_y(frame, position) <= i64::MAX,
    ensures
        ({
            let local = gpui_point_of(frame, position);
            outside_frame(frame, position) == leaves(
                seq![local.x, local.y],
                seq![0, 0],
                None,
                seq![frame.size.width, frame.size.height],
            )
        }),
{
}

/// Whether the coordinates of a point are whole numbers of 256ths of a point, up to 8192 points.
pub open spec fn everyday_point(point: Point) -> bool {
    is_everyday(point.x as int) && is_everyday(point.y as int)
}

/// Whether the coordinates of a rectangle are whole numbers of 256ths of a point, up to 8192
/// points.
pub open spec fn everyday_rect(rect: Rect) -> bool {
    &&& everyday_point(rect.origin)
    &&& is_everyday(rect.size.width as int)
    &&& is_everyday(rect.size.height as int)
}

/// A converted mouse position is as far from the left edge as before, and the distances from the
/// bottom and from the top make up the height of the window.
pub proof fn mouse_positions_count_from_the_top(position: Point, window_height: Pixels)
    requires
        everyday_point(position),
        is_everyday(window_height as int),
    ensures
        converted_position(position, window_height).x == position.x,
        converted_position(position, window_height).y + position.y == window_height,
{
}

/// Any converted mouse position is, up to rounding, as far from the left edge as before, and the
/// distances from the bottom and from the top make up the height of the window.
pub proof fn mouse_positions_count_from_the_top_up_to_rounding(
    position: Point,
    window_height: Pixels,
)
    requires
        fits(window_height - position.y),
    ensures
        ({
            let result = converted_position(position, window_height);
            &&& close(result.x as int, position.x as int, magnitude(position.x as int))
            &&& close(
                result.y + position.y,
                window_height as int,
                3 * (magnitude(position.y as int) + magnitude(window_height as int)),
            )
        }),
{
    single_is_close(position.x as int);
    single_is_close(position.y as int);
    single_is_close(window_height - single(position.y as int));
}

/// The bounds of a window on a screen: its size, how far its left edge is right of that of the
/// screen, and as much from the top as the screen is higher than the top edge of the window,
/// shifted as the screen is. A window on no screen has the default size, at the origin.
pub proof fn window_bounds_measure_from_the_screen(
    window_frame: Rect,
    screen: Rect,
    default_size: Size,
)
    requires
        everyday_rect(window_frame),
        everyday_rect(screen),
    ensures
        ({
            let bounds = window_bounds_of(window_frame, Some(screen), default_size);
            &&& bounds.size == window_frame.size
            &&& screen.origin.x + bounds.origin.x == window_frame.origin.x
            &&& window_frame.origin.y + window_frame.size.height + bounds.origin.y
                == screen.size.height + screen.origin.y
        }),
        window_bounds_of(window_frame, None, default_size).size == default_size,
        window_bounds_of(window_frame, None, default_size).origin == (Point { x: 0, y: 0 }),
{
}

/// A window opens with its size, with its left edge as far right of that of the screen as its
/// bounds say, and with its top edge as far below the top of the display.
pub proof fn windows_open_at_their_bounds(bounds: Rect, screen: Rect, display_height: Pixels)
    requires
        everyday_rect(bounds),
        everyday_rect(screen),
        is_everyday(display_height as int),
    ensures
        ({
            let rect = opening_rect_of(bounds, screen, display_height);
            &&& rect.size == bounds.size
            &&& rect.origin.x - screen.origin.x == bounds.origin.x
            &&& screen.origin.y + display_height - rect.origin.y == bounds.origin.y
        }),
{
}

/// The content frame is the frame itself if the content reaches under the titlebar, and else the
/// frame lowered by what is left of its height above the content.
pub proof fn content_frame_leaves_out_the_titlebar(frame: Rect, content_layout_height: Pixels)
    requires
        everyday_rect(frame),
        is_everyday(content_layout_height as int),
    ensures
        content_frame_of(frame, content_layout_height, true) == frame,
        ({
            let lowered = content_frame_of(frame, content_layout_height, false);
            &&& lowered.size == frame.size
            &&& lowered.origin.x == frame.origin.x
            &&& lowered.origin.y + frame.size.height == frame.origin.y + content_layout_height
        }),
{
}

/// A point of the screen in a window: so far right of the left edge, and so far below the top
/// edge, of the frame.
pub proof fn window_points_measure_from_the_top_left(frame: Rect, position: Point)
    requires
        everyday_rect(frame),
        everyday_point(position),
    ensures
        ({
            let local = gpui_point_of(frame, position);
            &&& frame.origin.x + local.x == position.x
            &&& position.y + local.y == frame.origin.y + frame.size.height
        }),
{
}

/// Characters have the size that the input handler gave, and their left and top edges are as far
/// from those of the frame as it said; characters without bounds are nowhere.
pub proof fn characters_are_where_the_input_handler_says(frame: Rect, bounds: Rect)
    requires
        everyday_rect(frame),
        everyday_rect(bounds),
    ensures
        ({
            let rect = character_rect_of(frame, Some(bounds));
            &&& rect.size == bounds.size
            &&& rect.origin.x == frame.origin.x + bounds.origin.x
            &&& rect.origin.y + rect.size.height + bounds.origin.y == frame.origin.y
                + frame.size.height
        }),
        character_rect_of(frame, None).origin == (Point { x: 0, y: 0 }),
        character_rect_of(frame, None).size == (Size { width: 0, height: 0 }),
{
}

/// A point is outside a frame exactly if it is left of it, right of it, below it or above it.
pub proof fn outside_is_beyond_an_edge(frame: Rect, position: Point)
    requires
        everyday_rect(frame),
        everyday_point(position),
    ensures
        outside_frame(frame, position) <==> {
            ||| position.x < frame.origin.x
            ||| position.x > frame.origin.x + frame.size.width
            ||| position.y < frame.origin.y
            ||| position.y > frame.origin.y + frame.size.height
        },
{
}

/// A point relative to the top-left corner of its screen; without a screen, relative to the origin
/// and counted downwards.
pub proof fn screen_positions_measure_from_the_top_left(position: Point, screen: Rect)
    requires
        everyday_point(position),
        everyday_rect(screen),
    ensures
        ({
            let result = screen_position_of(position, Some(screen));
            &&& screen.origin.x + result.x == position.x
            &&& position.y + result.y == screen.origin.y + screen.size.height
        }),
        ({
            let result = screen_position_of(position, None);
            result.x == position.x && result.y == -position.y
        }),
{
}

/// A window has the scale factor of its screen; it is two if the screen says zero or if there is no
/// screen.
pub proof fn scale_factor_is_that_of_the_screen(factor: Pixels)
    requires
        is_everyday(factor as int),
    ensures
        factor != 0 ==> scale_of(Some(factor)) == factor,
        scale_of(Some(0)) == 2 * 0x1_0000_0000,
        scale_of(None) == 2 * 0x1_0000_0000,
{
}

/// Two sizes are the same exactly if their widths and their heights are.
pub proof fn sizes_are_compared_side_by_side(a: Size, b: Size)
    requires
        is_everyday(a.width as int) && is_everyday(a.height as int),
        is_everyday(b.width as int) && is_everyday(b.height as int),
    ensures
        same_size(a, b) <==> a.width == b.width && a.height == b.height,
        single_size(a) == a,
{
}

/// A window fills its screen exactly if it is as wide and as high as the visible part; without a
/// screen, only if it has no extent.
pub proof fn filling_the_screen_takes_both_sides(window_size: Size, visible_size: Size)
    requires
        is_everyday(window_size.width as int) && is_everyday(window_size.height as int),
        is_everyday(visible_size.width as int) && is_everyday(visible_size.height as int),
    ensures
        fills(window_size, Some(visible_size)) <==> window_size == visible_size,
        fills(window_size, None) <==> window_size.width == 0 && window_size.height == 0,
{
}

/// Whether a coordinate is a number in single precision, or at an end of the range.
pub open spec fn is_told_in_single_precision(value: Pixels) -> bool {
    is_single(value as int) || value == i64::MAX || value == i64::MIN
}

/// The application is told positions, bounds and sizes in single precision.
pub proof fn applications_are_told_single_precision(
    position: Point,
    window_height: Pixels,
    frame: Rect,
    screen: Rect,
    default_size: Size,
)
    ensures
        ({
            let mouse = converted_position(position, window_height);
            let local = gpui_point_of(frame, position);
            let ended = screen_position_of(position, Some(screen));
            let bounds = window_bounds_of(frame, Some(screen), default_size);
            &&& is_told_in_single_precision(mouse.x) && is_told_in_single_precision(mouse.y)
            &&& is_told_in_single_precision(local.x) && is_told_in_single_precision(local.y)
            &&& is_told_in_single_precision(ended.x) && is_told_in_single_precision(ended.y)
            &&& is_told_in_single_precision(bounds.origin.x)
            &&& is_told_in_single_precision(bounds.origin.y)
            &&& is_told_in_single_precision(bounds.size.width)
            &&& is_told_in_single_precision(bounds.size.height)
        }),
{
    rounding_is_idempotent(position.x as int);
    rounding_is_idempotent(window_height - single(position.y as int));
    rounding_is_idempotent(local_x(frame, position));
    rounding_is_idempotent(local_y(frame, position));
    rounding_is_idempotent(double(position.x - screen.origin.x));
    rounding_is_idempotent(double(double(screen.origin.y + screen.size.height) - position.y));
    let top = double(double(screen.size.height - frame.origin.y) - frame.size.height);
    rounding_is_idempotent(double(frame.origin.x - screen.origin.x));
    rounding_is_idempotent(double(top + screen.origin.y));
    rounding_is_idempotent(frame.size.width as int);
    rounding_is_idempotent(frame.size.height as int);
}

/// The bounds of any window on a screen are, up to rounding, as they are measured from the screen.
pub proof fn window_bounds_measure_from_the_screen_up_to_rounding(
    window_frame: Rect,
    screen: Rect,
    default_size: Size,
)
    requires
        fits(window_frame.origin.x - screen.origin.x),
        fits(
            screen.size.height + screen.origin.y - window_frame.origin.y
                - window_frame.size.height,
        ),
    ensures
        ({
            let bounds = window_bounds_of(window_frame, Some(screen), default_size);
            let x = window_frame.origin.x - screen.origin.x;
            let y = screen.size.height + screen.origin.y - window_frame.origin.y
                - window_frame.size.height;
            &&& close(bounds.origin.x as int, x, magnitude(x))
            &&& close(bounds.origin.y as int, y, magnitude(y))
        }),
{
    let x = window_frame.origin.x - screen.origin.x;
    let y = screen.size.height + screen.origin.y - window_frame.origin.y - window_frame.size.height;
    let below = double(screen.size.height - window_frame.origin.y);
    let top = double(below - window_frame.size.height);
    lemma_double_error(x);
    lemma_single_of_double(double(x), x, 0x2000);
    lemma_double_error(screen.size.height - window_frame.origin.y);
    lemma_double_error(below - window_frame.size.height);
    lemma_double_error(top + screen.origin.y);
    lemma_single_of_double(double(top + screen.origin.y), y, 0x6000);
}

/// Any point of the screen is, up to rounding, where it is measured in the window, and on the
/// screen.
pub proof fn points_are_measured_up_to_rounding(frame: Rect, screen: Rect, position: Point)
    requires
        fits(position.x - frame.origin.x),
        fits(frame.size.height + frame.origin.y - position.y),
        fits(position.x - screen.origin.x),
        fits(screen.origin.y + screen.size.height - position.y),
    ensures
        ({
            let local = gpui_point_of(frame, position);
            let x = position.x - frame.origin.x;
            let y = frame.size.height + frame.origin.y - position.y;
            close(local.x as int, x, magnitude(x)) && close(local.y as int, y, magnitude(y))
        }),
        ({
            let result = screen_position_of(position, Some(screen));
            let x = position.x - screen.origin.x;
            let y = screen.origin.y + screen.size.height - position.y;
            close(result.x as int, x, magnitude(x)) && close(result.y as int, y, magnitude(y))
        }),
{
    lemma_double_error(position.x - frame.origin.x);
    lemma_single_of_double(local_x(frame, position), position.x - frame.origin.x, 0x2000);
    lemma_double_error(position.y - frame.origin.y);
    lemma_double_error(frame.size.height - double(position.y - frame.origin.y));
    lemma_single_of_double(
        local_y(frame, position),
        frame.size.height + frame.origin.y - position.y,
        0x4000,
    );
    lemma_double_error(position.x - screen.origin.x);
    lemma_single_of_double(
        double(position.x - screen.origin.x),
        position.x - screen.origin.x,
        0x2000,
    );
    let top = double(screen.origin.y + screen.size.height);
    lemma_double_error(screen.origin.y + screen.size.height);
    lemma_double_error(top - position.y);
    lemma_single_of_double(
        double(top - position.y),
        screen.origin.y + screen.size.height - position.y,
        0x4000,
    );
}

} // verus!
