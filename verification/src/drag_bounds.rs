//! When a drag that started inside the application becomes an external drag.
//!
//! The coordinates are numbers in single precision, and so is where the preview starts and ends.

use vstd::prelude::*;

use crate::geometry::Pixels;
use crate::rounding::{is_everyday, single, single_keeps_the_order, to_single};

verus! {

/// Whether the interval from `start` to `end` lies within `0 ..= extent`.
pub open spec fn within(start: int, end: int, extent: int) -> bool {
    0 <= start && end <= extent
}

/// Whether the pointer is over the viewport; the edges belong to it.
pub open spec fn pointer_inside(mouse: Seq<Pixels>, viewport: Seq<Pixels>) -> bool {
    &&& within(mouse[0] as int, mouse[0] as int, viewport[0] as int)
    &&& within(mouse[1] as int, mouse[1] as int, viewport[1] as int)
}

/// Where along one axis a preview starts that hangs `offset` before the pointer.
pub open spec fn preview_start(mouse: Pixels, offset: Pixels) -> int {
    single(mouse - offset)
}

/// Where along one axis that preview ends, if it is `size` long.
pub open spec fn preview_end(mouse: Pixels, offset: Pixels, size: Pixels) -> int {
    single(preview_start(mouse, offset) + size)
}

/// Whether the preview, which hangs `offset` up and left of the pointer, is wholly visible.
pub open spec fn preview_inside(
    mouse: Seq<Pixels>,
    offset: Seq<Pixels>,
    size: Seq<Pixels>,
    viewport: Seq<Pixels>,
) -> bool {
    &&& within(
        preview_start(mouse[0], offset[0]),
        preview_end(mouse[0], offset[0], size[0]),
        viewport[0] as int,
    )
    &&& within(
        preview_start(mouse[1], offset[1]),
        preview_end(mouse[1], offset[1], size[1]),
        viewport[1] as int,
    )
}

/// Whether a dragged preview leaves the viewport: the pointer is outside, or the preview, once it
/// has been measured, is not wholly visible.
pub open spec fn leaves(
    mouse: Seq<Pixels>,
    offset: Seq<Pixels>,
    preview: Option<[Pixels; 2]>,
    viewport: Seq<Pixels>,
) -> bool {
    ||| !pointer_inside(mouse, viewport)
    ||| preview is Some && !preview_inside(mouse, offset, preview->0@, viewport)
}

/// Decides [`leaves`]. All arguments are in the same unit, horizontal coordinate first.
pub fn preview_leaves_viewport(
    mouse: [Pixels; 2],
    offset: [Pixels; 2],
    preview: Option<[Pixels; 2]>,
    viewport: [Pixels; 2],
) -> (result: bool)
    ensures
        result == leaves(mouse@, offset@, preview, viewport@),
{
    if mouse[0] < 0 || mouse[1] < 0 || mouse[0] > viewport[0] || mouse[1] > viewport[1] {
        return true;
    }
    match preview {
        None => false,
        Some(size) => {
            let x: i128 = to_single(mouse[0] as i128 - offset[0] as i128);
            let y: i128 = to_single(mouse[1] as i128 - offset[1] as i128);
            x < 0 || y < 0 || to_single(x + size[0] as i128) > viewport[0] as i128 || to_single(
                y + size[1] as i128,
            ) > viewport[1] as i128
        },
    }
}

/// A pointer outside the viewport promotes the drag whatever the preview is.
pub proof fn pointer_outside_always_leaves(
    mouse: Seq<Pixels>,
    offset: Seq<Pixels>,
    preview: Option<[Pixels; 2]>,
    viewport: Seq<Pixels>,
)
    requires
        !pointer_inside(mouse, viewport),
    ensures
        leaves(mouse, offset, preview, viewport),
{
}

/// While the preview is unmeasured only the pointer counts.
pub proof fn unmeasured_preview_follows_the_pointer(
    mouse: Seq<Pixels>,
    offset: Seq<Pixels>,
    viewport: Seq<Pixels>,
)
    ensures
        leaves(mouse, offset, None, viewport) == !pointer_inside(mouse, viewport),
{
}

/// A larger viewport never turns a drag that stays inside into one that leaves.
pub proof fn larger_viewport_keeps_the_drag_inside(
    mouse: Seq<Pixels>,
    offset: Seq<Pixels>,
    preview: Option<[Pixels; 2]>,
    viewport: Seq<Pixels>,
    larger: Seq<Pixels>,
)
    requires
        !leaves(mouse, offset, preview, viewport),
        viewport[0] <= larger[0],
        viewport[1] <= larger[1],
    ensures
        !leaves(mouse, offset, preview, larger),
{
}

/// A larger preview never brings a drag that leaves back inside.
pub proof fn larger_preview_never_comes_back(
    mouse: Seq<Pixels>,
    offset: Seq<Pixels>,
    preview: [Pixels; 2],
    larger: [Pixels; 2],
    viewport: Seq<Pixels>,
)
    requires
        leaves(mouse, offset, Some(preview), viewport),
        preview@[0] <= larger@[0],
        preview@[1] <= larger@[1],
    ensures
        leaves(mouse, offset, Some(larger), viewport),
{
    single_keeps_the_order(
        preview_start(mouse[0], offset[0]) + preview@[0],
        preview_start(mouse[0], offset[0]) + larger@[0],
    );
    single_keeps_the_order(
        preview_start(mouse[1], offset[1]) + preview@[1],
        preview_start(mouse[1], offset[1]) + larger@[1],
    );
}

/// A drag stays inside exactly if the pointer is over the viewport, edges included, and the preview,
/// once it has been measured, reaches over no edge: it starts `offset` left of and above the
/// pointer and is as wide and as high as it was measured.
pub proof fn drags_stay_inside_between_the_edges(
    mouse: Seq<Pixels>,
    offset: Seq<Pixels>,
    preview: Option<[Pixels; 2]>,
    viewport: Seq<Pixels>,
)
    requires
        is_everyday(mouse[0] as int) && is_everyday(mouse[1] as int),
        is_everyday(offset[0] as int) && is_everyday(offset[1] as int),
        preview matches Some(size) ==> is_everyday(size@[0] as int) && is_everyday(size@[1] as int),
    ensures
        !leaves(mouse, offset, preview, viewport) <==> {
            &&& 0 <= mouse[0] <= viewport[0]
            &&& 0 <= mouse[1] <= viewport[1]
            &&& preview matches Some(size) ==> {
                &&& offset[0] <= mouse[0]
                &&& offset[1] <= mouse[1]
                &&& mouse[0] + size@[0] <= viewport[0] + offset[0]
                &&& mouse[1] + size@[1] <= viewport[1] + offset[1]
            }
        },
{
}

/// Both axes count alike: swapping them changes nothing.
pub proof fn axes_count_alike(
    mouse: Seq<Pixels>,
    offset: Seq<Pixels>,
    preview: [Pixels; 2],
    viewport: Seq<Pixels>,
    swapped: [Pixels; 2],
)
    requires
        swapped@[0] == preview@[1],
        swapped@[1] == preview@[0],
    ensures
        leaves(mouse, offset, Some(preview), viewport) == leaves(
            seq![mouse[1], mouse[0]],
            seq![offset[1], offset[0]],
            Some(swapped),
            seq![viewport[1], viewport[0]],
        ),
{
}

} // verus!
