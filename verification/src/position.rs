//! Placement of a floating element next to its trigger.
//!
//! All lengths are whole numbers of one layout unit that the caller picks (a
//! pixel, or a fraction of one). Halving a length rounds down.

use vstd::prelude::*;

verus! {

/// Side length of the arrow glyph of a tooltip, in layout units.
pub const TOOLTIP_ARROW_SIZE: u32 = 8;

/// Gap between trigger and tooltip where the caller asks for none.
pub const TOOLTIP_DEFAULT_OFFSET: u32 = 8;

/// Bounding box of an element at one moment, relative to the viewport.
#[derive(Clone, Copy, Debug, PartialEq, Eq, Structural)]
pub struct Rect {
    pub top: i32,
    pub left: i32,
    pub width: u32,
    pub height: u32,
}

impl Rect {
    /// The horizontal position of the right edge.
    pub open spec fn spec_right(self) -> int {
        self.left + self.width
    }

    /// The vertical position of the bottom edge.
    pub open spec fn spec_bottom(self) -> int {
        self.top + self.height
    }

    /// Twice the horizontal position of the centre.
    pub open spec fn center_x_doubled(self) -> int {
        2 * self.left + self.width
    }

    pub fn new(top: i32, left: i32, width: u32, height: u32) -> (r: Rect)
        ensures
            r == (Rect { top, left, width, height }),
    {
        Rect { top, left, width, height }
    }

    /// The box that an element has before it was laid out.
    pub fn zero() -> (r: Rect)
        ensures
            r == (Rect { top: 0, left: 0, width: 0, height: 0 }),
    {
        Rect { top: 0, left: 0, width: 0, height: 0 }
    }

    pub fn right(self) -> (r: i64)
        ensures
            r == self.spec_right(),
    {
        self.left as i64 + self.width as i64
    }

    pub fn bottom(self) -> (r: i64)
        ensures
            r == self.spec_bottom(),
    {
        self.top as i64 + self.height as i64
    }
}

/// What is measured of a trigger when a tooltip is about to show: its box in
/// the viewport, its vertical offset inside its offset parent, and how far the
/// window is scrolled down.
#[derive(Clone, Copy, Debug, PartialEq, Eq, Structural)]
pub struct Trigger {
    pub rect: Rect,
    pub offset_top: i32,
    pub scroll_y: i32,
}

/// Where the top left corner of a floating element goes.
#[derive(Clone, Copy, Debug, PartialEq, Eq, Structural)]
pub struct Coordinates {
    pub top: i64,
    pub left: i64,
}

impl Coordinates {
    /// The origin, where a floating element sits before it was ever shown.
    pub fn origin() -> (c: Coordinates)
        ensures
            c == (Coordinates { top: 0, left: 0 }),
    {
        Coordinates { top: 0, left: 0 }
    }
}

impl Default for Coordinates {
    fn default() -> (c: Coordinates)
        ensures
            c == (Coordinates { top: 0, left: 0 }),
    {
        Coordinates { top: 0, left: 0 }
    }
}

/// The side of the trigger on which a tooltip appears.
#[derive(Clone, Copy, Debug, PartialEq, Eq, Structural)]
pub enum TooltipPosition {
    Top,
    Right,
    Bottom,
    Left,
}

impl Default for TooltipPosition {
    fn default() -> (p: TooltipPosition)
        ensures
            p == TooltipPosition::Right,
    {
        TooltipPosition::Right
    }
}

/// Distance that is kept between the trigger's edge and the tooltip's edge:
/// the offset, and the arrow's size where an arrow is drawn.
pub open spec fn clearance(arrow_enabled: bool, arrow_size: u32, offset: u32) -> int {
    if arrow_enabled {
        offset + arrow_size
    } else {
        offset as int
    }
}

/// The vertical coordinate of a tooltip.
pub open spec fn tooltip_top(
    trigger: Trigger,
    floating: Rect,
    position: TooltipPosition,
    arrow_enabled: bool,
    arrow_size: u32,
    offset: u32,
) -> int {
    match position {
        TooltipPosition::Top => trigger.offset_top - floating.height - clearance(
            arrow_enabled,
            arrow_size,
            offset,
        ),
        TooltipPosition::Bottom => trigger.rect.spec_bottom() + trigger.scroll_y + clearance(
            arrow_enabled,
            arrow_size,
            offset,
        ),
        TooltipPosition::Right | TooltipPosition::Left => trigger.offset_top + trigger.rect.height
            / 2 - floating.height / 2,
    }
}

/// The horizontal coordinate of a tooltip.
pub open spec fn tooltip_left(
    trigger: Trigger,
    floating: Rect,
    position: TooltipPosition,
    arrow_enabled: bool,
    arrow_size: u32,
    offset: u32,
) -> int {
    match position {
        TooltipPosition::Top | TooltipPosition::Bottom => trigger.rect.left + trigger.rect.width / 2
            - floating.width / 2,
        TooltipPosition::Right => trigger.rect.spec_right() + clearance(
            arrow_enabled,
            arrow_size,
            offset,
        ),
        TooltipPosition::Left => trigger.rect.left - floating.width - clearance(
            arrow_enabled,
            arrow_size,
            offset,
        ),
    }
}

/// How far a tooltip whose corner is at (`top`, `left`) has its near edge
/// from the trigger's edge, measured in the direction of placement.
pub open spec fn placement_distance(
    trigger: Trigger,
    floating: Rect,
    position: TooltipPosition,
    top: int,
    left: int,
) -> int {
    match position {
        TooltipPosition::Top => trigger.offset_top - (top + floating.height),
        TooltipPosition::Bottom => top - (trigger.rect.spec_bottom() + trigger.scroll_y),
        TooltipPosition::Right => left - trigger.rect.spec_right(),
        TooltipPosition::Left => trigger.rect.left - (left + floating.width),
    }
}

/// The coordinate that placement does not move: `left` above and below the
/// trigger, `top` beside it.
pub open spec fn cross_coordinate(position: TooltipPosition, top: int, left: int) -> int {
    match position {
        TooltipPosition::Top | TooltipPosition::Bottom => left,
        TooltipPosition::Right | TooltipPosition::Left => top,
    }
}

/// Sum of offset and arrow size, the arrow counted only where it is drawn.
fn clearance_of(arrow_enabled: bool, arrow_size: u32, offset: u32) -> (r: i64)
    ensures
        r == clearance(arrow_enabled, arrow_size, offset),
{
    if arrow_enabled {
        offset as i64 + arrow_size as i64
    } else {
        offset as i64
    }
}

/// Computes where a tooltip goes so that it touches `trigger` on the side
/// `position`, `offset` away from it, and `arrow_size` further where an arrow
/// is drawn. Across the placement direction the tooltip is centred on the
/// trigger. A floating box that was not laid out yet has size zero and is
/// placed like any other.
pub fn compute_tooltip_position(
    trigger: &Trigger,
    floating: &Rect,
    position: TooltipPosition,
    arrow_enabled: bool,
    arrow_size: u32,
    offset: u32,
) -> (at: Coordinates)
    ensures
        at.top == tooltip_top(*trigger, *floating, position, arrow_enabled, arrow_size, offset),
        at.left == tooltip_left(*trigger, *floating, position, arrow_enabled, arrow_size, offset),
        placement_distance(*trigger, *floating, position, at.top as int, at.left as int)
            == clearance(
            arrow_enabled,
            arrow_size,
            offset,
        ),
{
    let gap: i64 = clearance_of(arrow_enabled, arrow_size, offset);
    match position {
        TooltipPosition::Top => Coordinates {
            top: trigger.offset_top as i64 - floating.height as i64 - gap,
            left: trigger.rect.left as i64 + (trigger.rect.width / 2) as i64 - (floating.width
                / 2) as i64,
        },
        TooltipPosition::Bottom => Coordinates {
            top: trigger.rect.bottom() + trigger.scroll_y as i64 + gap,
            left: trigger.rect.left as i64 + (trigger.rect.width / 2) as i64 - (floating.width
                / 2) as i64,
        },
        TooltipPosition::Right => Coordinates {
            top: trigger.offset_top as i64 + (trigger.rect.height / 2) as i64 - (floating.height
                / 2) as i64,
            left: trigger.rect.right() + gap,
        },
        TooltipPosition::Left => Coordinates {
            top: trigger.offset_top as i64 + (trigger.rect.height / 2) as i64 - (floating.height
                / 2) as i64,
            left: trigger.rect.left as i64 - floating.width as i64 - gap,
        },
    }
}

/// Where a dropdown panel goes: its top left corner on the bottom left corner
/// of its anchor.
pub fn dropdown_position(anchor: &Rect) -> (at: Coordinates)
    ensures
        at.top == anchor.spec_bottom(),
        at.left == anchor.left,
{
    Coordinates { top: anchor.bottom(), left: anchor.left as i64 }
}

/// A tooltip to the right and one to the left of the same trigger, with no
/// offset and no arrow, lie mirrored about the trigger's vertical centre line:
/// the left edge of the first is as far to its right as the right edge of the
/// second is to its left. Both have the same `top`.
pub proof fn lemma_right_left_mirrored(trigger: Trigger, floating: Rect, arrow_size: u32)
    ensures
        2 * tooltip_left(trigger, floating, TooltipPosition::Right, false, arrow_size, 0)
            - trigger.rect.center_x_doubled() == trigger.rect.center_x_doubled() - 2 * (
        tooltip_left(trigger, floating, TooltipPosition::Left, false, arrow_size, 0)
            + floating.width),
        tooltip_left(trigger, floating, TooltipPosition::Right, false, arrow_size, 0)
            == tooltip_left(trigger, floating, TooltipPosition::Left, false, arrow_size, 0)
            + floating.width + trigger.rect.width,
        tooltip_top(trigger, floating, TooltipPosition::Right, false, arrow_size, 0)
            == tooltip_top(trigger, floating, TooltipPosition::Left, false, arrow_size, 0),
{
}

/// A larger offset puts the tooltip strictly further from the trigger, by the
/// difference of the offsets, and leaves the other coordinate alone.
pub proof fn lemma_offset_monotonic(
    trigger: Trigger,
    floating: Rect,
    position: TooltipPosition,
    arrow_enabled: bool,
    arrow_size: u32,
    smaller: u32,
    larger: u32,
)
    requires
        smaller < larger,
    ensures
        ({
            let near_top = tooltip_top(trigger, floating, position, arrow_enabled, arrow_size, smaller);
            let near_left = tooltip_left(trigger, floating, position, arrow_enabled, arrow_size, smaller);
            let far_top = tooltip_top(trigger, floating, position, arrow_enabled, arrow_size, larger);
            let far_left = tooltip_left(trigger, floating, position, arrow_enabled, arrow_size, larger);
            let near = placement_distance(trigger, floating, position, near_top, near_left);
            let far = placement_distance(trigger, floating, position, far_top, far_left);
            &&& near < far
            &&& far - near == larger - smaller
            &&& cross_coordinate(position, near_top, near_left) == cross_coordinate(
                position,
                far_top,
                far_left,
            )
        }),
{
}

/// Drawing the arrow moves the tooltip away from the trigger by exactly the
/// arrow's size, and changes nothing else.
pub proof fn lemma_arrow_toggle(
    trigger: Trigger,
    floating: Rect,
    position: TooltipPosition,
    arrow_size: u32,
    offset: u32,
)
    ensures
        ({
            let plain_top = tooltip_top(trigger, floating, position, false, arrow_size, offset);
            let plain_left = tooltip_left(trigger, floating, position, false, arrow_size, offset);
            let arrow_top = tooltip_top(trigger, floating, position, true, arrow_size, offset);
            let arrow_left = tooltip_left(trigger, floating, position, true, arrow_size, offset);
            &&& placement_distance(trigger, floating, position, arrow_top, arrow_left)
                == placement_distance(trigger, floating, position, plain_top, plain_left)
                + arrow_size
            &&& cross_coordinate(position, arrow_top, arrow_left) == cross_coordinate(
                position,
                plain_top,
                plain_left,
            )
        }),
{
}

} // verus!
