//! A modal dialog: its variants, the swipe that dismisses a bottom sheet, and
//! the scroll lock that it holds while it is open.

use vstd::prelude::*;

verus! {

/// How far down a bottom sheet must have been dragged when the finger lifts
/// for the sheet to ask to be closed.
pub const MOBILE_SWIPE_THRESHOLD: i64 = 150;

/// Where on the screen a modal appears.
#[derive(Clone, Copy, Debug, PartialEq, Eq, Structural)]
pub enum ModalVariant {
    Center,
    Fullscreen,
    Bottom,
}

impl Default for ModalVariant {
    fn default() -> (variant: ModalVariant)
        ensures
            variant == ModalVariant::Center,
    {
        ModalVariant::Center
    }
}

/// The direction of a swipe.
#[derive(Clone, Copy, Debug, PartialEq, Eq, Structural)]
pub enum SwipeDirection {
    Up,
    Right,
    Down,
    Left,
    /// The finger has not moved far enough to tell.
    Undecided,
}

/// The drag of a bottom sheet: how far down the finger is from where it
/// touched. It is zero between gestures.
#[derive(Clone, Copy, Debug, PartialEq, Eq, Structural)]
pub struct SwipeState {
    pub distance: i64,
}

impl SwipeState {
    /// No gesture under way.
    pub fn new() -> (state: SwipeState)
        ensures
            state.distance == 0,
    {
        SwipeState { distance: 0 }
    }

    /// The finger moved. `length_y` is how far above its start it is now, so
    /// it is negative below the start. A downward swipe sets the distance;
    /// any other direction leaves it.
    pub fn swipe_move(&mut self, direction: SwipeDirection, length_y: i32)
        ensures
            final(self).distance == if direction == SwipeDirection::Down {
                -(length_y as int)
            } else {
                old(self).distance as int
            },
    {
        if direction == SwipeDirection::Down {
            self.distance = -(length_y as i64);
        }
    }

    /// The finger lifted. Returns whether the sheet asks to be closed: it
    /// does where the distance is over the threshold. The distance is zero
    /// afterwards, whatever the answer.
    pub fn swipe_end(&mut self) -> (close: bool)
        ensures
            close == (old(self).distance > MOBILE_SWIPE_THRESHOLD),
            final(self).distance == 0,
    {
        let close = self.distance > MOBILE_SWIPE_THRESHOLD;
        self.distance = 0;
        close
    }

    /// How far down the sheet is drawn from its resting place.
    pub fn translate_y(&self) -> (r: i64)
        ensures
            r == self.distance,
    {
        self.distance
    }
}

/// What is done to the page's scroll lock.
#[derive(Clone, Copy, Debug, PartialEq, Eq, Structural)]
pub enum ScrollLock {
    /// The page must not scroll behind the modal.
    Acquire,
    /// The page scrolls again.
    Release,
}

/// The style class that keeps the page from scrolling.
pub const SCROLL_LOCK_CLASS: &'static str = "mm-overflow-hidden";

/// What a modal does to the scroll lock when it opens or closes.
pub fn scroll_lock(open: bool) -> (action: ScrollLock)
    ensures
        action == if open {
            ScrollLock::Acquire
        } else {
            ScrollLock::Release
        },
{
    if open {
        ScrollLock::Acquire
    } else {
        ScrollLock::Release
    }
}

/// Whether a touch on the body of a modal is kept from the sheet around it:
/// it is while the body is scrolled down, so that scrolling back up does not
/// drag the sheet.
pub fn body_keeps_touch(scroll_top: i32) -> (r: bool)
    ensures
        r == (scroll_top > 0),
{
    scroll_top > 0
}

impl ModalVariant {
    /// How the title bar of a modal lays out its parts.
    pub open spec fn spec_title_classes(self) -> Seq<char> {
        match self {
            ModalVariant::Bottom => "mm-flex-col"@,
            ModalVariant::Center | ModalVariant::Fullscreen => "mm-flex-row mm-pt-6 mm-pb-3 mm-gap-4"@,
        }
    }

    pub fn title_classes(self) -> (r: &'static str)
        ensures
            r@ == self.spec_title_classes(),
    {
        match self {
            ModalVariant::Bottom => "mm-flex-col",
            ModalVariant::Center | ModalVariant::Fullscreen => "mm-flex-row mm-pt-6 mm-pb-3 mm-gap-4",
        }
    }

    /// How the title of a modal is aligned.
    pub open spec fn spec_title_text_classes(self) -> Seq<char> {
        match self {
            ModalVariant::Center => "mm-text-left"@,
            ModalVariant::Fullscreen => "mm-text-left"@,
            ModalVariant::Bottom => "mm-text-center"@,
        }
    }

    pub fn title_text_classes(self) -> (r: &'static str)
        ensures
            r@ == self.spec_title_text_classes(),
    {
        match self {
            ModalVariant::Center => "mm-text-left",
            ModalVariant::Fullscreen => "mm-text-left",
            ModalVariant::Bottom => "mm-text-center",
        }
    }

    /// The width limit of the body of a modal.
    pub open spec fn spec_body_classes(self) -> Seq<char> {
        match self {
            ModalVariant::Center => ""@,
            ModalVariant::Fullscreen => "mm-max-w-2xl mm-mx-auto mm-mb-auto"@,
            ModalVariant::Bottom => ""@,
        }
    }

    pub fn body_classes(self) -> (r: &'static str)
        ensures
            r@ == self.spec_body_classes(),
    {
        match self {
            ModalVariant::Center => "",
            ModalVariant::Fullscreen => "mm-max-w-2xl mm-mx-auto mm-mb-auto",
            ModalVariant::Bottom => "",
        }
    }

    /// The width limit of the row of actions of a modal.
    pub open spec fn spec_actions_classes(self) -> Seq<char> {
        match self {
            ModalVariant::Center => ""@,
            ModalVariant::Fullscreen => "mm-max-w-2xl mm-mx-auto mm-mt-auto"@,
            ModalVariant::Bottom => ""@,
        }
    }

    pub fn actions_classes(self) -> (r: &'static str)
        ensures
            r@ == self.spec_actions_classes(),
    {
        match self {
            ModalVariant::Center => "",
            ModalVariant::Fullscreen => "mm-max-w-2xl mm-mx-auto mm-mt-auto",
            ModalVariant::Bottom => "",
        }
    }

    /// Where the backdrop puts the modal.
    pub open spec fn spec_wrapper_classes(self) -> Seq<char> {
        match self {
            ModalVariant::Center => "mm-items-center mm-justify-center"@,
            ModalVariant::Fullscreen => "mm-items-center"@,
            ModalVariant::Bottom => "mm-items-end"@,
        }
    }

    pub fn wrapper_classes(self) -> (r: &'static str)
        ensures
            r@ == self.spec_wrapper_classes(),
    {
        match self {
            ModalVariant::Center => "mm-items-center mm-justify-center",
            ModalVariant::Fullscreen => "mm-items-center",
            ModalVariant::Bottom => "mm-items-end",
        }
    }

    /// The size and shape of the modal itself.
    pub open spec fn spec_modal_classes(self) -> Seq<char> {
        match self {
            ModalVariant::Center => "mm-rounded-lg mm-w-[calc(100%-24px)] mm-max-w-md mm-max-h-[calc(100vh-16px)] mm-mt-4 mm-items-center"@,
            ModalVariant::Fullscreen => "mm-w-full mm-h-full mm-items-center"@,
            ModalVariant::Bottom => "mm-w-full mm-items-end mm-max-h-[65vh] mm-rounded-t-2xl mm-transition-transform mm-duration-75"@,
        }
    }

    pub fn modal_classes(self) -> (r: &'static str)
        ensures
            r@ == self.spec_modal_classes(),
    {
        match self {
            ModalVariant::Center => "mm-rounded-lg mm-w-[calc(100%-24px)] mm-max-w-md mm-max-h-[calc(100vh-16px)] mm-mt-4 mm-items-center",
            ModalVariant::Fullscreen => "mm-w-full mm-h-full mm-items-center",
            ModalVariant::Bottom => "mm-w-full mm-items-end mm-max-h-[65vh] mm-rounded-t-2xl mm-transition-transform mm-duration-75",
        }
    }
}

impl ModalVariant {
    /// Whether the title bar has a button that closes the modal. A bottom
    /// sheet has none: it is swiped away.
    pub fn has_close_button(self) -> (r: bool)
        ensures
            r == (self != ModalVariant::Bottom),
    {
        match self {
            ModalVariant::Bottom => false,
            _ => true,
        }
    }

    /// Whether the title bar has a handle to drag the modal by. Only a
    /// bottom sheet has one.
    pub fn has_drag_handle(self) -> (r: bool)
        ensures
            r == (self == ModalVariant::Bottom),
    {
        match self {
            ModalVariant::Bottom => true,
            _ => false,
        }
    }
}

} // verus!
