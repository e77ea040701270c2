//! The looks of an avatar: a round button that shows an icon, a letter or an
//! image, and the state of a connection.

use vstd::prelude::*;
use crate::text::first_char;

verus! {

/// The size of an avatar.
#[derive(Clone, Copy, Debug, PartialEq, Eq, Structural)]
pub enum Size {
    ExtraSmall,
    Small,
    Medium,
    Large,
    ExtraLarge,
}

impl Default for Size {
    fn default() -> (r: Size)
        ensures
            r == Size::Medium,
    {
        Size::Medium
    }
}

/// What an avatar shows.
#[derive(Clone, Copy, Debug, PartialEq, Eq, Structural)]
pub enum Variant {
    Icon,
    Letter,
    Image,
}

impl Default for Variant {
    fn default() -> (r: Variant)
        ensures
            r == Variant::Icon,
    {
        Variant::Icon
    }
}

/// Possible connection status.
#[derive(Clone, Copy, Debug, PartialEq, Eq, Structural)]
pub enum ConnectionStatus {
    Connecting,
    Open,
    Closed,
}

impl Size {
    /// The width and height of an avatar.
    pub open spec fn spec_dimension_classes(self) -> Seq<char> {
        match self {
            Size::ExtraSmall => "mm-w-6 mm-h-6"@,
            Size::Small => "mm-w-7 mm-h-7"@,
            Size::Medium => "mm-w-8 mm-h-8"@,
            Size::Large => "mm-w-9 mm-h-9"@,
            Size::ExtraLarge => "mm-w-12 mm-h-12"@,
        }
    }

    pub fn dimension_classes(self) -> (r: &'static str)
        ensures
            r@ == self.spec_dimension_classes(),
    {
        match self {
            Size::ExtraSmall => "mm-w-6 mm-h-6",
            Size::Small => "mm-w-7 mm-h-7",
            Size::Medium => "mm-w-8 mm-h-8",
            Size::Large => "mm-w-9 mm-h-9",
            Size::ExtraLarge => "mm-w-12 mm-h-12",
        }
    }
}

impl Variant {
    /// The border and text colours of an avatar.
    pub open spec fn spec_color_classes(self) -> Seq<char> {
        match self {
            Variant::Icon | Variant::Letter => "mm-border mm-border-transparent-black-400 dark:mm-border-transparent-white-400 mm-text-gray-low-100 dark:mm-text-gray-low-200"@,
            Variant::Image => "mm-border mm-border-transparent"@,
        }
    }

    pub fn color_classes(self) -> (r: &'static str)
        ensures
            r@ == self.spec_color_classes(),
    {
        match self {
            Variant::Icon | Variant::Letter => "mm-border mm-border-transparent-black-400 dark:mm-border-transparent-white-400 mm-text-gray-low-100 dark:mm-text-gray-low-200",
            Variant::Image => "mm-border mm-border-transparent",
        }
    }

    /// The style classes of what stands inside an avatar.
    pub open spec fn spec_content_classes(self) -> Seq<char> {
        match self {
            Variant::Icon => "mm-w-5 mm-min-h-5 mm-inline-block mm-justify-center mm-items-center mm-flex mm-text-xl"@,
            Variant::Letter => "mm-text-sm mm-uppercase"@,
            Variant::Image => "mm-w-10 mm-h-10 mm-rounded-full"@,
        }
    }

    pub fn content_classes(self) -> (r: &'static str)
        ensures
            r@ == self.spec_content_classes(),
    {
        match self {
            Variant::Icon => "mm-w-5 mm-min-h-5 mm-inline-block mm-justify-center mm-items-center mm-flex mm-text-xl",
            Variant::Letter => "mm-text-sm mm-uppercase",
            Variant::Image => "mm-w-10 mm-h-10 mm-rounded-full",
        }
    }
}

impl ConnectionStatus {
    /// The style classes of the dot that shows the connection status.
    pub open spec fn spec_badge_classes(self) -> Seq<char> {
        match self {
            ConnectionStatus::Connecting => "mm-absolute mm-w-[7px] mm-h-[7px] mm-bg-amber-600 dark:mm-bg-amber-500 mm-rounded-full mm-bottom-px mm-right-px mm-border-[0.5px] mm-border-black-800 dark:mm-border-white-800 mm-animate-ping"@,
            ConnectionStatus::Open => "mm-absolute mm-w-[7px] mm-h-[7px] mm-bg-green-700 mm-rounded-full mm-bottom-px mm-right-px mm-border-[0.5px] mm-border-black-800 dark:mm-border-white-800"@,
            ConnectionStatus::Closed => "mm-absolute mm-w-[7px] mm-h-[7px] mm-bg-gray-high-900 dark:mm-bg-gray-low-400 mm-rounded-full mm-bottom-px mm-right-px mm-border-[0.5px] mm-border-black-800 dark:mm-border-white-800"@,
        }
    }

    pub fn badge_classes(self) -> (r: &'static str)
        ensures
            r@ == self.spec_badge_classes(),
    {
        match self {
            ConnectionStatus::Connecting => "mm-absolute mm-w-[7px] mm-h-[7px] mm-bg-amber-600 dark:mm-bg-amber-500 mm-rounded-full mm-bottom-px mm-right-px mm-border-[0.5px] mm-border-black-800 dark:mm-border-white-800 mm-animate-ping",
            ConnectionStatus::Open => "mm-absolute mm-w-[7px] mm-h-[7px] mm-bg-green-700 mm-rounded-full mm-bottom-px mm-right-px mm-border-[0.5px] mm-border-black-800 dark:mm-border-white-800",
            ConnectionStatus::Closed => "mm-absolute mm-w-[7px] mm-h-[7px] mm-bg-gray-high-900 dark:mm-bg-gray-low-400 mm-rounded-full mm-bottom-px mm-right-px mm-border-[0.5px] mm-border-black-800 dark:mm-border-white-800",
        }
    }
}

/// The letter of a name: its first character, or the null character for an
/// empty name.
pub open spec fn spec_letter(name: Seq<char>) -> char {
    if name.len() > 0 {
        name[0]
    } else {
        '\0'
    }
}

/// The letter that a letter avatar shows for `name`.
pub fn letter(name: &str) -> (r: char)
    ensures
        r == spec_letter(name@),
{
    match first_char(name) {
        Some(c) => c,
        None => '\0',
    }
}

} // verus!
