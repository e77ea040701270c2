//! A dropdown panel below its anchor.

use vstd::prelude::*;
use crate::position::{dropdown_position, Coordinates, Rect};

verus! {

/// Gap between anchor and dropdown where the caller asks for none.
pub const DROPDOWN_DEFAULT_OFFSET: i16 = 8;

/// What a dropdown remembers: where it was put last.
#[derive(Clone, Copy, Debug, PartialEq, Eq, Structural)]
pub struct DropdownState {
    pub coordinates: Coordinates,
}

impl DropdownState {
    /// A dropdown that was never placed.
    pub fn new() -> (state: DropdownState)
        ensures
            state.coordinates == (Coordinates { top: 0, left: 0 }),
    {
        DropdownState { coordinates: Coordinates { top: 0, left: 0 } }
    }

    /// The anchor or the window's width changed. With an anchor the dropdown
    /// goes below it, from the box just measured; without one it stays.
    pub fn anchor_changed(&mut self, anchor: Option<Rect>)
        ensures
            match anchor {
                Some(rect) => {
                    &&& final(self).coordinates.top == rect.spec_bottom()
                    &&& final(self).coordinates.left == rect.left
                },
                None => *final(self) == *old(self),
            },
    {
        match anchor {
            Some(rect) => {
                self.coordinates = dropdown_position(&rect);
            },
            None => {},
        }
    }
}

/// Whether a dropdown is drawn: it is open and has an anchor.
pub fn dropdown_is_shown(open: bool, has_anchor: bool) -> (r: bool)
    ensures
        r == (open && has_anchor),
{
    open && has_anchor
}

} // verus!
