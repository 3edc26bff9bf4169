//! Resizing the floating window by its edges.

use crate::coordinate::Coordinate;
use vstd::prelude::*;

verus! {

/// The edge or corner that a window is resized by.
#[derive(Clone, Copy, Debug, PartialEq, Eq, Structural)]
pub enum ResizeDirection {
    Nowhere,
    Left,
    Right,
    Top,
    Bottom,
    TopLeft,
    TopRight,
    BottomLeft,
    BottomRight,
}

/// The shape of the pointer over an edge.
#[derive(Clone, Copy, Debug, PartialEq, Eq, Structural)]
pub enum ResizeCursor {
    Default,
    Horizontal,
    Vertical,
    NwSe,
    NeSw,
}

/// The sides of a window that a point is at.
#[derive(Clone, Copy, Debug)]
pub struct EdgeZones {
    /// Left of this is the left edge, and so on.
    pub left: Coordinate,
    pub right: Coordinate,
    pub top: Coordinate,
    pub bottom: Coordinate,
}

/// The edge that is at the given sides.  Opposite sides at once are none: the
/// window is too small to tell.
pub open spec fn edge_at(left: bool, right: bool, top: bool, bottom: bool) -> ResizeDirection {
    if left && right || top && bottom {
        ResizeDirection::Nowhere
    } else if left && top {
        ResizeDirection::TopLeft
    } else if right && top {
        ResizeDirection::TopRight
    } else if left && bottom {
        ResizeDirection::BottomLeft
    } else if right && bottom {
        ResizeDirection::BottomRight
    } else if left {
        ResizeDirection::Left
    } else if right {
        ResizeDirection::Right
    } else if top {
        ResizeDirection::Top
    } else if bottom {
        ResizeDirection::Bottom
    } else {
        ResizeDirection::Nowhere
    }
}

/// The edge or corner under a point.
pub fn get_resize_direction(x: Coordinate, y: Coordinate, zones: &EdgeZones) -> (direction:
    ResizeDirection)
    ensures
        direction == edge_at(
            x < zones.left,
            x > zones.right,
            y < zones.top,
            y > zones.bottom,
        ),
{
    let at_left = x < zones.left;
    let at_right = x > zones.right;
    let at_top = y < zones.top;
    let at_bottom = y > zones.bottom;
    match (at_left, at_right, at_top, at_bottom) {
        (true, false, true, false) => ResizeDirection::TopLeft,
        (false, true, true, false) => ResizeDirection::TopRight,
        (true, false, false, true) => ResizeDirection::BottomLeft,
        (false, true, false, true) => ResizeDirection::BottomRight,
        (true, false, false, false) => ResizeDirection::Left,
        (false, true, false, false) => ResizeDirection::Right,
        (false, false, true, false) => ResizeDirection::Top,
        (false, false, false, true) => ResizeDirection::Bottom,
        _ => ResizeDirection::Nowhere,
    }
}

/// The shape of the pointer over an edge.
pub fn get_resize_cursor(direction: ResizeDirection) -> (cursor: ResizeCursor)
    ensures
        cursor == (match direction {
            ResizeDirection::Left => ResizeCursor::Horizontal,
            ResizeDirection::Right => ResizeCursor::Horizontal,
            ResizeDirection::Top => ResizeCursor::Vertical,
            ResizeDirection::Bottom => ResizeCursor::Vertical,
            ResizeDirection::TopLeft => ResizeCursor::NwSe,
            ResizeDirection::BottomRight => ResizeCursor::NwSe,
            ResizeDirection::TopRight => ResizeCursor::NeSw,
            ResizeDirection::BottomLeft => ResizeCursor::NeSw,
            ResizeDirection::Nowhere => ResizeCursor::Default,
        }),
{
    match direction {
        ResizeDirection::Left => ResizeCursor::Horizontal,
        ResizeDirection::Right => ResizeCursor::Horizontal,
        ResizeDirection::Top => ResizeCursor::Vertical,
        ResizeDirection::Bottom => ResizeCursor::Vertical,
        ResizeDirection::TopLeft => ResizeCursor::NwSe,
        ResizeDirection::BottomRight => ResizeCursor::NwSe,
        ResizeDirection::TopRight => ResizeCursor::NeSw,
        ResizeDirection::BottomLeft => ResizeCursor::NeSw,
        ResizeDirection::Nowhere => ResizeCursor::Default,
    }
}

/// How the pointer's movement changes a length.
#[derive(Clone, Copy, Debug, PartialEq, Eq, Structural)]
pub enum Growth {
    Unchanged,
    /// The length grows with the movement.
    With,
    /// The length shrinks with the movement.
    Against,
}

/// How resizing by an edge or corner works.
#[derive(Clone, Copy, Debug, PartialEq, Eq, Structural)]
pub struct ResizePlan {
    pub width: Growth,
    pub height: Growth,
    /// The left side of the window moves, the right one stays.
    pub moves_left: bool,
    /// The top of the window moves, the bottom stays.
    pub moves_top: bool,
}

pub open spec fn pulls_left(direction: ResizeDirection) -> bool {
    direction == ResizeDirection::Left || direction == ResizeDirection::TopLeft || direction
        == ResizeDirection::BottomLeft
}

pub open spec fn pulls_right(direction: ResizeDirection) -> bool {
    direction == ResizeDirection::Right || direction == ResizeDirection::TopRight || direction
        == ResizeDirection::BottomRight
}

pub open spec fn pulls_top(direction: ResizeDirection) -> bool {
    direction == ResizeDirection::Top || direction == ResizeDirection::TopLeft || direction
        == ResizeDirection::TopRight
}

pub open spec fn pulls_bottom(direction: ResizeDirection) -> bool {
    direction == ResizeDirection::Bottom || direction == ResizeDirection::BottomLeft || direction
        == ResizeDirection::BottomRight
}

/// How resizing by an edge or corner works: the opposite sides stay.
pub open spec fn resize_plan(direction: ResizeDirection) -> ResizePlan {
    ResizePlan {
        width: if pulls_left(direction) {
            Growth::Against
        } else if pulls_right(direction) {
            Growth::With
        } else {
            Growth::Unchanged
        },
        height: if pulls_top(direction) {
            Growth::Against
        } else if pulls_bottom(direction) {
            Growth::With
        } else {
            Growth::Unchanged
        },
        moves_left: pulls_left(direction),
        moves_top: pulls_top(direction),
    }
}

/// How resizing by an edge or corner works; nothing is to be done where there is
/// none.
pub fn resize_floating_keep_aspect(direction: ResizeDirection) -> (plan: Option<ResizePlan>)
    ensures
        plan == (if direction == ResizeDirection::Nowhere {
            None
        } else {
            Some(resize_plan(direction))
        }),
{
    match direction {
        ResizeDirection::Nowhere => None,
        ResizeDirection::Left => Some(
            ResizePlan {
                width: Growth::Against,
                height: Growth::Unchanged,
                moves_left: true,
                moves_top: false,
            },
        ),
        ResizeDirection::Right => Some(
            ResizePlan {
                width: Growth::With,
                height: Growth::Unchanged,
                moves_left: false,
                moves_top: false,
            },
        ),
        ResizeDirection::Top => Some(
            ResizePlan {
                width: Growth::Unchanged,
                height: Growth::Against,
                moves_left: false,
                moves_top: true,
            },
        ),
        ResizeDirection::Bottom => Some(
            ResizePlan {
                width: Growth::Unchanged,
                height: Growth::With,
                moves_left: false,
                moves_top: false,
            },
        ),
        ResizeDirection::TopLeft => Some(
            ResizePlan {
                width: Growth::Against,
                height: Growth::Against,
                moves_left: true,
                moves_top: true,
            },
        ),
        ResizeDirection::TopRight => Some(
            ResizePlan {
                width: Growth::With,
                height: Growth::Against,
                moves_left: false,
                moves_top: true,
            },
        ),
        ResizeDirection::BottomLeft => Some(
            ResizePlan {
                width: Growth::Against,
                height: Growth::With,
                moves_left: true,
                moves_top: false,
            },
        ),
        ResizeDirection::BottomRight => Some(
            ResizePlan {
                width: Growth::With,
                height: Growth::With,
                moves_left: false,
                moves_top: false,
            },
        ),
    }
}

/// A side of the window moves only if the pointer pulls at it.
pub proof fn law_opposite_sides_stay(direction: ResizeDirection)
    ensures
        pulls_right(direction) ==> !resize_plan(direction).moves_left,
        pulls_bottom(direction) ==> !resize_plan(direction).moves_top,
        resize_plan(direction).moves_left ==> resize_plan(direction).width == Growth::Against,
        resize_plan(direction).moves_top ==> resize_plan(direction).height == Growth::Against,
{
}

/// The direction names a side exactly when the point lies beyond it, where not both
/// of two opposite sides do.
pub proof fn law_edges_are_where_the_point_is(
    x: Coordinate,
    y: Coordinate,
    zones: &EdgeZones,
    direction: ResizeDirection,
)
    requires
        call_ensures(get_resize_direction, (x, y, zones), direction),
        zones.left <= zones.right,
        zones.top <= zones.bottom,
    ensures
        direction is Left || direction is TopLeft || direction is BottomLeft <==> x < zones.left,
        direction is Right || direction is TopRight || direction is BottomRight <==> x > zones.right,
        direction is Top || direction is TopLeft || direction is TopRight <==> y < zones.top,
        direction is Bottom || direction is BottomLeft || direction is BottomRight <==> y
            > zones.bottom,
        direction is Nowhere <==> zones.left <= x <= zones.right && zones.top <= y <= zones.bottom,
{
}

/// The window grows at the side that is pulled: pulling right or down lengthens it,
/// pulling left or up moves that side, and a length that is not pulled at stays.
pub proof fn law_windows_grow_where_they_are_pulled(
    direction: ResizeDirection,
    plan: Option<ResizePlan>,
)
    requires
        call_ensures(resize_floating_keep_aspect, (direction,), plan),
    ensures
        plan is None <==> direction is Nowhere,
        plan matches Some(p) ==> {
            &&& p.moves_left <==> direction is Left || direction is TopLeft || direction is BottomLeft
            &&& p.moves_top <==> direction is Top || direction is TopLeft || direction is TopRight
            &&& p.width is Against <==> p.moves_left
            &&& p.height is Against <==> p.moves_top
            &&& p.width is With <==> direction is Right || direction is TopRight
                || direction is BottomRight
            &&& p.height is With <==> direction is Bottom || direction is BottomLeft
                || direction is BottomRight
        },
{
}

/// The pointer shows along which line the window is pulled: two opposite edges look
/// the same, and so do two opposite corners.
pub proof fn law_pointer_shows_the_pull(direction: ResizeDirection, cursor: ResizeCursor)
    requires
        call_ensures(get_resize_cursor, (direction,), cursor),
    ensures
        cursor is Default <==> direction is Nowhere,
        cursor is Horizontal <==> direction is Left || direction is Right,
        cursor is Vertical <==> direction is Top || direction is Bottom,
        cursor is NwSe <==> direction is TopLeft || direction is BottomRight,
        cursor is NeSw <==> direction is TopRight || direction is BottomLeft,
{
}

} // verus!
