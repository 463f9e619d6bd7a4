//! The close, minimize and zoom buttons of a window that puts them where it wants.

use vstd::prelude::*;

use crate::geometry::{close, everyday_point, everyday_rect, fits, lemma_double_error, magnitude, point_at, saturate, saturated};
use crate::geometry::{Pixels, Point, Rect, Size};
use crate::rounding::{double, is_double, is_single, single, single_is_close};
use crate::rounding::{is_everyday, to_double, to_single};

verus! {

/// The frames of the buttons and of the titlebar that contains them.
#[derive(Clone, Copy, Debug, PartialEq, Eq, Structural)]
pub struct TrafficLightFrames {
    pub titlebar: Rect,
    pub close: Rect,
    pub minimize: Rect,
    pub zoom: Rect,
}

/// Where the titlebar and the buttons go.
#[derive(Clone, Copy, Debug, PartialEq, Eq, Structural)]
pub struct TrafficLightLayout {
    pub titlebar: Rect,
    pub close: Point,
    pub minimize: Point,
    pub zoom: Point,
}

/// What is done to the buttons.
#[derive(Clone, Copy, Debug, PartialEq, Eq, Structural)]
pub enum TrafficLightPlan {
    Keep,
    Place(TrafficLightLayout),
    Restore(TrafficLightFrames),
}

/// Where a window wants its buttons, and where AppKit had them before the window moved them.
#[derive(Clone, Copy, Debug, PartialEq, Eq, Structural)]
pub struct TrafficLight {
    pub position: Option<Point>,
    pub frames: Option<TrafficLightFrames>,
}

/// How high the titlebar becomes.
pub open spec fn titlebar_height(position: Point, live: TrafficLightFrames) -> int {
    single(single(single(live.close.size.height as int) + position.y) + position.y)
}

/// The gap between two buttons.
pub open spec fn button_padding(live: TrafficLightFrames) -> int {
    single(
        double(
            double(live.minimize.origin.x - live.close.origin.x) - live.close.size.width,
        ),
    )
}

/// Where the button starts that follows the one at `x`.
pub open spec fn next_button(x: int, live: TrafficLightFrames) -> int {
    single(single(x + single(live.close.size.width as int)) + button_padding(live))
}

/// The layout with the close button at `position`: the titlebar is as high as a button with the
/// same margin above and below, and hangs from the top of the window; the buttons keep their
/// distance.
pub open spec fn layout_at(
    position: Point,
    window_height: Pixels,
    live: TrafficLightFrames,
) -> TrafficLightLayout {
    let height = titlebar_height(position, live);
    let minimize_x = next_button(position.x as int, live);
    TrafficLightLayout {
        titlebar: Rect {
            origin: point_at(
                live.titlebar.origin.x as int,
                single(single(window_height as int) - height),
            ),
            size: Size { width: live.titlebar.size.width, height: saturated(height) as i64 },
        },
        close: position,
        minimize: point_at(minimize_x, position.y as int),
        zoom: point_at(next_button(minimize_x, live), position.y as int),
    }
}

/// What restoring the buttons comes to, when `live` are the buttons that the window has now.
pub open spec fn restore_plan(
    light: TrafficLight,
    live: Option<TrafficLightFrames>,
) -> TrafficLightPlan {
    match (light.frames, live) {
        (Some(frames), Some(_)) => TrafficLightPlan::Restore(frames),
        _ => TrafficLightPlan::Keep,
    }
}

/// What moving the buttons comes to.
pub open spec fn move_plan(
    light: TrafficLight,
    is_fullscreen: bool,
    window_height: Pixels,
    live: Option<TrafficLightFrames>,
) -> TrafficLightPlan {
    match (light.position, live) {
        (Some(position), Some(frames)) => if is_fullscreen {
            restore_plan(light, live)
        } else {
            TrafficLightPlan::Place(layout_at(position, window_height, frames))
        },
        _ => TrafficLightPlan::Keep,
    }
}

/// What is remembered after moving the buttons: in fullscreen nothing, else where AppKit had them
/// when they were moved for the first time.
pub open spec fn moved(
    light: TrafficLight,
    is_fullscreen: bool,
    live: Option<TrafficLightFrames>,
) -> TrafficLight {
    if light.position is None {
        light
    } else if is_fullscreen {
        TrafficLight { frames: None, ..light }
    } else {
        TrafficLight {
            frames: if light.frames is Some {
                light.frames
            } else {
                live
            },
            ..light
        }
    }
}

/// What is remembered after the buttons were put back.
pub open spec fn restored(light: TrafficLight) -> TrafficLight {
    TrafficLight { frames: None, ..light }
}

/// What is remembered when the window wants its buttons elsewhere.
pub open spec fn wanted_at(light: TrafficLight, position: Point) -> TrafficLight {
    TrafficLight { position: Some(position), ..light }
}

impl TrafficLight {
    /// Buttons that have not been moved.
    pub fn new(position: Option<Point>) -> (result: TrafficLight)
        ensures
            result == (TrafficLight { position, frames: None }),
    {
        TrafficLight { position, frames: None }
    }

    /// Moves the buttons to where the window wants them, or back if it is in fullscreen. `live`
    /// are the buttons that the window has now: AppKit can make new ones at any time, and a
    /// window may have none.
    pub fn move_traffic_light(
        &mut self,
        is_fullscreen: bool,
        window_height: Pixels,
        live: Option<TrafficLightFrames>,
    ) -> (plan: TrafficLightPlan)
        ensures
            *final(self) == moved(*old(self), is_fullscreen, live),
            plan == move_plan(*old(self), is_fullscreen, window_height, live),
    {
        match self.position {
            None => TrafficLightPlan::Keep,
            Some(position) => {
                if is_fullscreen {
                    return self.restore_traffic_light(live);
                }
                if self.frames.is_none() {
                    self.frames = live;
                }
                match live {
                    None => TrafficLightPlan::Keep,
                    Some(frames) => {
                        let button_width: i128 = to_single(frames.close.size.width as i128);
                        let button_height: i128 = to_single(frames.close.size.height as i128);
                        let pitch: i128 = to_double(
                            frames.minimize.origin.x as i128 - frames.close.origin.x as i128,
                        );
                        let padding: i128 = to_single(
                            to_double(pitch - frames.close.size.width as i128),
                        );
                        let height: i128 = to_single(
                            to_single(button_height + position.y as i128) + position.y as i128,
                        );
                        let top: i128 = to_single(to_single(window_height as i128) - height);
                        let minimize_x: i128 = to_single(
                            to_single(position.x as i128 + button_width) + padding,
                        );
                        let zoom_x: i128 = to_single(
                            to_single(minimize_x + button_width) + padding,
                        );
                        TrafficLightPlan::Place(
                            TrafficLightLayout {
                                titlebar: Rect {
                                    origin: Point {
                                        x: frames.titlebar.origin.x,
                                        y: saturate(top),
                                    },
                                    size: Size {
                                        width: frames.titlebar.size.width,
                                        height: saturate(height),
                                    },
                                },
                                close: position,
                                minimize: Point { x: saturate(minimize_x), y: position.y },
                                zoom: Point { x: saturate(zoom_x), y: position.y },
                            },
                        )
                    },
                }
            },
        }
    }

    /// Puts the buttons back where AppKit had them, if the window has buttons, and forgets where
    /// that was.
    pub fn restore_traffic_light(&mut self, live: Option<TrafficLightFrames>) -> (plan:
        TrafficLightPlan)
        ensures
            *final(self) == restored(*old(self)),
            *final(self) == (TrafficLight { frames: None, ..*old(self) }),
            plan == restore_plan(*old(self), live),
    {
        match self.frames.take() {
            Some(frames) => match live {
                Some(_) => TrafficLightPlan::Restore(frames),
                None => TrafficLightPlan::Keep,
            },
            None => TrafficLightPlan::Keep,
        }
    }

    /// Wants the buttons elsewhere.
    pub fn set_traffic_light_position(&mut self, position: Point)
        ensures
            *final(self) == wanted_at(*old(self), position),
            *final(self) == (TrafficLight { position: Some(position), ..*old(self) }),
    {
        self.position = Some(position);
    }
}

/// The buttons stay equally spaced, and the titlebar reaches up to the top of the window, if no
/// step of the layout is rounded.
pub proof fn layout_is_even(position: Point, window_height: Pixels, live: TrafficLightFrames)
    requires
        ({
            let width = live.close.size.width as int;
            let height = live.close.size.height as int;
            let pitch = live.minimize.origin.x - live.close.origin.x;
            &&& fits(height + 2 * position.y)
            &&& fits(window_height - (height + 2 * position.y))
            &&& fits(position.x + pitch)
            &&& fits(position.x + 2 * pitch)
            &&& is_single(width) && is_single(height) && is_single(window_height as int)
            &&& is_single(height + position.y) && is_single(height + 2 * position.y)
            &&& is_single(window_height - (height + 2 * position.y))
            &&& is_double(pitch) && is_double(pitch - width) && is_single(pitch - width)
            &&& is_single(position.x + width) && is_single(position.x + pitch)
            &&& is_single(position.x + pitch + width) && is_single(position.x + 2 * pitch)
        }),
    ensures
        ({
            let layout = layout_at(position, window_height, live);
            &&& layout.minimize.x - layout.close.x == live.minimize.origin.x - live.close.origin.x
            &&& layout.zoom.x - layout.minimize.x == layout.minimize.x - layout.close.x
            &&& layout.close.y == layout.minimize.y == layout.zoom.y
            &&& layout.titlebar.origin.y + layout.titlebar.size.height == window_height
        }),
{
    let width = live.close.size.width as int;
    let height = live.close.size.height as int;
    let pitch = live.minimize.origin.x - live.close.origin.x;
    assert(height + position.y + position.y == height + 2 * position.y);
    assert(position.x + width + (pitch - width) == position.x + pitch);
    assert(next_button(position.x as int, live) == position.x + pitch);
    assert(position.x + pitch + width + (pitch - width) == position.x + 2 * pitch);
}

/// Rounding a number that is off by `error` parts in `2^24` of a unit.
proof fn lemma_single_step(computed: int, value: int, bound: int, error: int)
    requires
        magnitude(value) <= bound,
        0 <= error,
        magnitude(computed - value) * 0x100_0000 <= error,
    ensures
        magnitude(single(computed) - value) * 0x100_0000 <= error + bound + error / 0x100_0000,
{
    single_is_close(computed);
}

proof fn lemma_next_button(x: int, live: TrafficLightFrames)
    requires
        magnitude(x) <= 0x4_0000_0000_0000_0000,
    ensures
        ({
            let pitch = live.minimize.origin.x - live.close.origin.x;
            let across = magnitude(x) + magnitude(live.close.size.width as int) + magnitude(pitch);
            magnitude(next_button(x, live) - (x + pitch)) * 0x100_0000 <= 6 * across
                + 0x48_0000_0000
        }),
{
    let width = live.close.size.width as int;
    let pitch = live.minimize.origin.x - live.close.origin.x;
    let across = magnitude(x) + magnitude(width) + magnitude(pitch);
    lemma_double_error(pitch);
    lemma_double_error(double(pitch) - width);
    lemma_single_step(width, width, magnitude(width), 0);
    lemma_single_step(
        double(double(pitch) - width),
        pitch - width,
        magnitude(pitch) + magnitude(width),
        0x40_0000_0000,
    );
    lemma_single_step(x + single(width), x + width, magnitude(x) + magnitude(width), across);
    lemma_single_step(
        single(x + single(width)) + button_padding(live),
        x + pitch,
        magnitude(x) + magnitude(pitch),
        4 * across + 0x41_0000_0000,
    );
}

proof fn lemma_titlebar_height(position: Point, live: TrafficLightFrames)
    ensures
        ({
            let height = live.close.size.height as int;
            magnitude(titlebar_height(position, live) - (height + 2 * position.y)) * 0x100_0000
                <= 4 * (magnitude(height) + magnitude(position.y as int))
        }),
{
    let height = live.close.size.height as int;
    let down = magnitude(height) + magnitude(position.y as int);
    lemma_single_step(height, height, magnitude(height), 0);
    lemma_single_step(single(height) + position.y, height + position.y, down, magnitude(height));
    lemma_single_step(
        single(single(height) + position.y) + position.y,
        height + 2 * position.y,
        magnitude(height) + 2 * magnitude(position.y as int),
        down + magnitude(height) + magnitude(height) / 0x100_0000,
    );
}

/// Taking both ends of a distance into the range of coordinates, where the exact ones are.
proof fn lemma_saturated_distance(
    start: int,
    end: int,
    exact_start: int,
    exact_end: int,
    error: int,
)
    requires
        fits(exact_start),
        fits(exact_end),
        magnitude(start - exact_start) + magnitude(end - exact_end) <= error,
    ensures
        magnitude((saturated(end) - saturated(start)) - (exact_end - exact_start)) <= error,
{
}

proof fn lemma_buttons(position: Point, window_height: Pixels, live: TrafficLightFrames)
    requires
        fits(position.x + (live.minimize.origin.x - live.close.origin.x)),
        fits(position.x + 2 * (live.minimize.origin.x - live.close.origin.x)),
    ensures
        ({
            let layout = layout_at(position, window_height, live);
            let pitch = live.minimize.origin.x - live.close.origin.x;
            let across = magnitude(position.x as int) + magnitude(live.close.size.width as int)
                + magnitude(pitch);
            &&& close(layout.minimize.x - layout.close.x, pitch, 8 * across)
            &&& close(layout.zoom.x - layout.minimize.x, pitch, 32 * across)
        }),
{
    let x = position.x as int;
    let pitch = live.minimize.origin.x - live.close.origin.x;
    let minimize_x = next_button(x, live);
    let zoom_x = next_button(minimize_x, live);
    lemma_next_button(x, live);
    lemma_next_button(minimize_x, live);
    let error = magnitude(minimize_x - (x + pitch)) + magnitude(zoom_x - (x + 2 * pitch));
    lemma_saturated_distance(x, minimize_x, x, x + pitch, magnitude(minimize_x - (x + pitch)));
    lemma_saturated_distance(minimize_x, zoom_x, x + pitch, x + 2 * pitch, error);
}

proof fn lemma_titlebar(position: Point, window_height: Pixels, live: TrafficLightFrames)
    requires
        fits(live.close.size.height + 2 * position.y),
        fits(window_height - (live.close.size.height + 2 * position.y)),
    ensures
        ({
            let layout = layout_at(position, window_height, live);
            let down = magnitude(position.y as int) + magnitude(live.close.size.height as int)
                + magnitude(window_height as int);
            close(
                layout.titlebar.origin.y + layout.titlebar.size.height,
                window_height as int,
                16 * down,
            )
        }),
{
    let window = window_height as int;
    let exact = live.close.size.height + 2 * position.y;
    let height = titlebar_height(position, live);
    let down = magnitude(position.y as int) + magnitude(live.close.size.height as int) + magnitude(
        window,
    );
    lemma_titlebar_height(position, live);
    lemma_single_step(window, window, magnitude(window), 0);
    lemma_single_step(single(window) - height, window - exact, 2 * down, 5 * down);
}

/// The buttons stay equally spaced, and the titlebar reaches up to the top of the window, up to
/// rounding.
pub proof fn layout_is_even_up_to_rounding(
    position: Point,
    window_height: Pixels,
    live: TrafficLightFrames,
)
    requires
        ({
            let pitch = live.minimize.origin.x - live.close.origin.x;
            &&& fits(live.close.size.height + 2 * position.y)
            &&& fits(window_height - (live.close.size.height + 2 * position.y))
            &&& fits(position.x + pitch)
            &&& fits(position.x + 2 * pitch)
        }),
    ensures
        ({
            let layout = layout_at(position, window_height, live);
            let pitch = live.minimize.origin.x - live.close.origin.x;
            let across = magnitude(position.x as int) + magnitude(live.close.size.width as int)
                + magnitude(pitch);
            let down = magnitude(position.y as int) + magnitude(live.close.size.height as int)
                + magnitude(window_height as int);
            &&& close(layout.minimize.x - layout.close.x, pitch, 8 * across)
            &&& close(layout.zoom.x - layout.minimize.x, pitch, 32 * across)
            &&& layout.close.y == layout.minimize.y == layout.zoom.y
            &&& close(
                layout.titlebar.origin.y + layout.titlebar.size.height,
                window_height as int,
                16 * down,
            )
        }),
{
    lemma_buttons(position, window_height, live);
    lemma_titlebar(position, window_height, live);
}

/// Moving the buttons again, wherever they have come to be, does not change what they will be
/// restored to.
pub proof fn first_frames_are_kept(
    light: TrafficLight,
    live: TrafficLightFrames,
    later: Option<TrafficLightFrames>,
)
    requires
        light.position is Some,
    ensures
        moved(moved(light, false, Some(live)), false, later) == moved(light, false, Some(live)),
{
}

/// A window that moved its buttons and goes fullscreen has them put back where they were before
/// it moved them for the first time.
pub proof fn fullscreen_restores_the_first_frames(
    position: Point,
    window_height: Pixels,
    first: TrafficLightFrames,
    later: TrafficLightFrames,
)
    ensures
        ({
            let light = TrafficLight { position: Some(position), frames: None };
            let placed = moved(moved(light, false, Some(first)), false, Some(later));
            &&& move_plan(placed, true, window_height, Some(later)) == TrafficLightPlan::Restore(
                first,
            )
            &&& restore_plan(placed, Some(later)) == TrafficLightPlan::Restore(first)
            &&& moved(placed, true, Some(later)) == light
        }),
{
}

/// What is remembered after a number of moves, each to a position of its own and with the buttons
/// that the window had then.
pub open spec fn moved_all(
    light: TrafficLight,
    moves: Seq<(Point, Option<TrafficLightFrames>)>,
) -> TrafficLight
    decreases moves.len(),
{
    if moves.len() == 0 {
        light
    } else {
        let (position, live) = moves.last();
        let before = moved_all(light, moves.drop_last());
        moved(TrafficLight { position: Some(position), ..before }, false, live)
    }
}

/// However often the buttons are moved, and to whatever positions, they are put back where AppKit
/// had them when they were moved for the first time.
pub proof fn moves_are_restored_to_the_first_frames(
    light: TrafficLight,
    moves: Seq<(Point, Option<TrafficLightFrames>)>,
    first: TrafficLightFrames,
    live: TrafficLightFrames,
)
    requires
        light.frames is None,
        moves.len() > 0,
        moves[0].1 == Some(first),
    ensures
        moved_all(light, moves).position == Some(moves.last().0),
        moved_all(light, moves).frames == Some(first),
        restore_plan(moved_all(light, moves), Some(live)) == TrafficLightPlan::Restore(first),
    decreases moves.len(),
{
    reveal_with_fuel(moved_all, 2);
    if moves.len() > 1 {
        moves_are_restored_to_the_first_frames(light, moves.drop_last(), first, live);
    }
}

/// Outside fullscreen, a window that wants its buttons somewhere and has buttons gets them placed
/// there, every time: with the close button at that position and the others on the same line,
/// whatever frames are remembered already.
pub proof fn buttons_are_placed_every_time(
    position: Point,
    frames: Option<TrafficLightFrames>,
    window_height: Pixels,
    live: TrafficLightFrames,
)
    ensures
        ({
            let light = TrafficLight { position: Some(position), frames };
            let plan = move_plan(light, false, window_height, Some(live));
            let layout = plan->Place_0;
            &&& plan is Place
            &&& layout.close == position
            &&& layout.minimize.y == position.y
            &&& layout.zoom.y == position.y
            &&& layout.titlebar.origin.x == live.titlebar.origin.x
            &&& layout.titlebar.size.width == live.titlebar.size.width
        }),
{
}

/// Where the buttons go depends on the wanted position, the height of the window and the buttons
/// that it has now, and not on what is remembered.
pub proof fn placement_forgets_the_past(
    light: TrafficLight,
    other: TrafficLight,
    window_height: Pixels,
    live: Option<TrafficLightFrames>,
)
    requires
        light.position == other.position,
    ensures
        move_plan(light, false, window_height, live) == move_plan(other, false, window_height, live),
        !(move_plan(light, false, window_height, live) is Restore),
{
}

/// The placed titlebar is as high as a button with the vertical position above and below it, and
/// ends at the top of the window; the buttons are as far apart as the close and the minimize
/// button are now.
pub proof fn titlebar_fits_the_buttons(
    position: Point,
    frames: Option<TrafficLightFrames>,
    window_height: Pixels,
    live: TrafficLightFrames,
)
    requires
        everyday_point(position),
        is_everyday(window_height as int),
        everyday_rect(live.close),
        everyday_rect(live.minimize),
    ensures
        ({
            let light = TrafficLight { position: Some(position), frames };
            let layout = move_plan(light, false, window_height, Some(live))->Place_0;
            let apart = live.minimize.origin.x - live.close.origin.x;
            &&& layout.titlebar.size.height == live.close.size.height + 2 * position.y
            &&& layout.titlebar.origin.y + layout.titlebar.size.height == window_height
            &&& layout.minimize.x - position.x == apart
            &&& layout.zoom.x - position.x == 2 * apart
        }),
{
}

/// In fullscreen, and when they are restored, the buttons are put back where they were when they
/// were moved, if they were moved and the window has buttons; either way that is forgotten, and the
/// wanted position is kept.
pub proof fn fullscreen_puts_the_buttons_back(
    position: Point,
    frames: Option<TrafficLightFrames>,
    window_height: Pixels,
    live: Option<TrafficLightFrames>,
)
    ensures
        ({
            let light = TrafficLight { position: Some(position), frames };
            let plan = move_plan(light, true, window_height, live);
            let restoring = restore_plan(light, live);
            &&& live is Some && frames is Some ==> plan == TrafficLightPlan::Restore(frames->0)
            &&& live is None || frames is None ==> plan == TrafficLightPlan::Keep
            &&& restoring == plan
            &&& moved(light, true, live).frames is None
            &&& moved(light, true, live).position == Some(position)
            &&& restored(light).frames is None
            &&& restored(light).position == Some(position)
        }),
{
}

/// A window that does not want its buttons anywhere leaves them alone and remembers nothing of
/// them, and a window without buttons has none placed.
pub proof fn unwanted_buttons_are_left_alone(
    light: TrafficLight,
    is_fullscreen: bool,
    window_height: Pixels,
    live: Option<TrafficLightFrames>,
)
    ensures
        light.position is None ==> {
            &&& move_plan(light, is_fullscreen, window_height, live) == TrafficLightPlan::Keep
            &&& moved(light, is_fullscreen, live) == light
        },
        live is None ==> move_plan(light, is_fullscreen, window_height, live)
            == TrafficLightPlan::Keep,
        light.position is Some && !is_fullscreen ==> {
            let after = moved(light, is_fullscreen, live);
            &&& after.position == light.position
            &&& light.frames is Some ==> after.frames == light.frames
            &&& light.frames is None ==> after.frames == live
        },
{
}

/// A window that wants its buttons elsewhere has them there after the next move, and is restored to
/// the same frames as before.
pub proof fn buttons_follow_a_new_position(
    light: TrafficLight,
    position: Point,
    window_height: Pixels,
    live: TrafficLightFrames,
)
    ensures
        ({
            let wanted = wanted_at(light, position);
            &&& move_plan(wanted, false, window_height, Some(live)) is Place
            &&& move_plan(wanted, false, window_height, Some(live))->Place_0.close == position
            &&& wanted.frames == light.frames
        }),
{
}

} // verus!
