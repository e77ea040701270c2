//! A tooltip: what it remembers between events, and how it looks.

use vstd::prelude::*;
use crate::position::{
    compute_tooltip_position, tooltip_left, tooltip_top, Coordinates, Rect, TooltipPosition,
    Trigger, TOOLTIP_ARROW_SIZE, TOOLTIP_DEFAULT_OFFSET,
};

verus! {

/// How a tooltip is placed and drawn.
#[derive(Clone, Copy, Debug, PartialEq, Eq, Structural)]
pub struct TooltipOptions {
    /// The side of the trigger on which the tooltip appears.
    pub position: TooltipPosition,
    /// Whether an arrow points from the tooltip to the trigger.
    pub arrow: bool,
    /// The gap between trigger and tooltip.
    pub offset: u32,
}

impl Default for TooltipOptions {
    /// To the right of the trigger, with an arrow, eight units away.
    fn default() -> (options: TooltipOptions)
        ensures
            options == (TooltipOptions {
                position: TooltipPosition::Right,
                arrow: true,
                offset: TOOLTIP_DEFAULT_OFFSET,
            }),
    {
        TooltipOptions { position: TooltipPosition::Right, arrow: true, offset: TOOLTIP_DEFAULT_OFFSET }
    }
}

/// What a tooltip remembers: whether it shows, and where it was put last.
/// Hiding keeps the place, so that the tooltip does not jump while it fades.
#[derive(Clone, Copy, Debug, PartialEq, Eq, Structural)]
pub struct TooltipState {
    pub visible: bool,
    pub coordinates: Coordinates,
}

impl TooltipState {
    /// A tooltip that was never shown: hidden, at the origin.
    pub fn new() -> (state: TooltipState)
        ensures
            !state.visible,
            state.coordinates == (Coordinates { top: 0, left: 0 }),
    {
        TooltipState { visible: false, coordinates: Coordinates { top: 0, left: 0 } }
    }

    /// The pointer entered the trigger. Where the tooltip's element is in the
    /// layout, `floating` is its box: the tooltip is placed anew from the
    /// boxes just measured, and shown. Where there is no such element yet,
    /// nothing changes.
    pub fn pointer_enter(
        &mut self,
        trigger: &Trigger,
        floating: Option<Rect>,
        options: &TooltipOptions,
    )
        ensures
            match floating {
                Some(rect) => {
                    &&& final(self).visible
                    &&& final(self).coordinates.top == tooltip_top(
                        *trigger,
                        rect,
                        options.position,
                        options.arrow,
                        TOOLTIP_ARROW_SIZE,
                        options.offset,
                    )
                    &&& final(self).coordinates.left == tooltip_left(
                        *trigger,
                        rect,
                        options.position,
                        options.arrow,
                        TOOLTIP_ARROW_SIZE,
                        options.offset,
                    )
                },
                None => *final(self) == *old(self),
            },
    {
        match floating {
            Some(rect) => {
                self.coordinates =
                compute_tooltip_position(
                    trigger,
                    &rect,
                    options.position,
                    options.arrow,
                    TOOLTIP_ARROW_SIZE,
                    options.offset,
                );
                self.visible = true;
            },
            None => {},
        }
    }

    /// The pointer left the trigger: the tooltip hides and stays where it is.
    pub fn pointer_leave(&mut self)
        ensures
            !final(self).visible,
            final(self).coordinates == old(self).coordinates,
    {
        self.visible = false;
    }

    /// Whether the tooltip takes pointer events and can be reached by
    /// assistive navigation: only while it shows.
    pub fn is_interactive(&self) -> (r: bool)
        ensures
            r == self.visible,
    {
        self.visible
    }
}

/// The style classes that every arrow of a tooltip has.
pub const ARROW_CLASSES: &'static str = "before:mm-content-[''] before:mm-absolute before:mm-border-[8px]";

/// The style classes that show or hide a tooltip. A hidden tooltip stays in
/// the layout, so that it can be measured, but is invisible and takes no
/// events.
pub open spec fn spec_visibility_classes(visible: bool) -> Seq<char> {
    if visible {
        "mm-opacity-100"@
    } else {
        "mm-invisible mm-opacity-0"@
    }
}

pub fn visibility_classes(visible: bool) -> (r: &'static str)
    ensures
        r@ == spec_visibility_classes(visible),
{
    if visible {
        "mm-opacity-100"
    } else {
        "mm-invisible mm-opacity-0"
    }
}

impl TooltipPosition {
    /// The style classes that draw the arrow of a tooltip on the side that
    /// faces the trigger.
    pub open spec fn spec_arrow_classes(self) -> Seq<char> {
        match self {
            TooltipPosition::Bottom => "before:mm-bottom-[100%] before:mm-left-[50%] before:-mm-ml-[8px] before:mm-border-t-transparent before:mm-border-r-transparent before:mm-border-b-gray-high-200 dark:before:mm-border-b-gray-low-800 before:mm-border-l-transparent"@,
            TooltipPosition::Right => "before:mm-top-[50%] before:mm-right-[100%] before:-mm-mt-[8px] before:mm-border-t-transparent before:mm-border-r-gray-high-200 dark:before:mm-border-r-gray-low-800 before:mm-border-b-transparent before:mm-border-l-transparent"@,
            TooltipPosition::Top => "before:mm-top-[100%] before:mm-left-[50%] before:-mm-ml-[8px] before:mm-border-t-gray-high-200 dark:before:mm-border-t-gray-low-800 before:mm-border-r-transparent before:mm-border-b-transparent before:mm-border-l-transparent"@,
            TooltipPosition::Left => "before:mm-top-[50%] before:mm-left-[100%] before:-mm-mt-[8px] before:mm-border-t-transparent before:mm-border-r-transparent before:mm-border-b-transparent before:mm-border-l-gray-high-200 dark:before:mm-border-l-gray-low-800"@,
        }
    }

    pub fn arrow_classes(self) -> (r: &'static str)
        ensures
            r@ == self.spec_arrow_classes(),
    {
        match self {
            TooltipPosition::Bottom => "before:mm-bottom-[100%] before:mm-left-[50%] before:-mm-ml-[8px] before:mm-border-t-transparent before:mm-border-r-transparent before:mm-border-b-gray-high-200 dark:before:mm-border-b-gray-low-800 before:mm-border-l-transparent",
            TooltipPosition::Right => "before:mm-top-[50%] before:mm-right-[100%] before:-mm-mt-[8px] before:mm-border-t-transparent before:mm-border-r-gray-high-200 dark:before:mm-border-r-gray-low-800 before:mm-border-b-transparent before:mm-border-l-transparent",
            TooltipPosition::Top => "before:mm-top-[100%] before:mm-left-[50%] before:-mm-ml-[8px] before:mm-border-t-gray-high-200 dark:before:mm-border-t-gray-low-800 before:mm-border-r-transparent before:mm-border-b-transparent before:mm-border-l-transparent",
            TooltipPosition::Left => "before:mm-top-[50%] before:mm-left-[100%] before:-mm-mt-[8px] before:mm-border-t-transparent before:mm-border-r-transparent before:mm-border-b-transparent before:mm-border-l-gray-high-200 dark:before:mm-border-l-gray-low-800",
        }
    }
}

} // verus!
