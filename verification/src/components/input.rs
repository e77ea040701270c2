//! The looks of a text input: its variant and size, and the style classes that
//! each choice stands for.

use vstd::prelude::*;

verus! {

/// The shape of an input.
#[derive(Clone, Copy, Debug, PartialEq, Eq, Structural)]
pub enum Variant {
    Standard,
    Round,
    Underline,
}

impl Default for Variant {
    fn default() -> (r: Variant)
        ensures
            r == Variant::Standard,
    {
        Variant::Standard
    }
}

/// The size of an input.
#[derive(Clone, Copy, Debug, PartialEq, Eq, Structural)]
pub enum Size {
    Small,
    Medium,
    Large,
    ExtraLarge,
}

impl Default for Size {
    fn default() -> (r: Size)
        ensures
            r == Size::Medium,
    {
        Size::Medium
    }
}

impl Variant {
    /// The padding of an input in a size.
    pub open spec fn spec_padding_classes(self, size: Size) -> Seq<char> {
        match self {
            Variant::Standard => match size {
                Size::Small => "mm-px-2 mm-py-0.5"@,
                Size::Medium => "mm-px-2 mm-py-1"@,
                Size::Large => "mm-px-2.5 mm-py-1.5"@,
                Size::ExtraLarge => "mm-px-3 mm-py-2"@,
            },
            Variant::Round => match size {
                Size::Small => "mm-px-3.5 mm-py-0.5"@,
                Size::Medium => "mm-px-3.5 mm-py-1"@,
                Size::Large => "mm-px-4 mm-py-1.5"@,
                Size::ExtraLarge => "mm-px-5 mm-py-2"@,
            },
            Variant::Underline => match size {
                Size::Small => "mm-py-0.5"@,
                Size::Medium => "mm-py-1"@,
                Size::Large => "mm-py-1.5"@,
                Size::ExtraLarge => "mm-py-3"@,
            },
        }
    }

    pub fn padding_classes(self, size: Size) -> (r: &'static str)
        ensures
            r@ == self.spec_padding_classes(size),
    {
        match self {
            Variant::Standard => match size {
                Size::Small => "mm-px-2 mm-py-0.5",
                Size::Medium => "mm-px-2 mm-py-1",
                Size::Large => "mm-px-2.5 mm-py-1.5",
                Size::ExtraLarge => "mm-px-3 mm-py-2",
            },
            Variant::Round => match size {
                Size::Small => "mm-px-3.5 mm-py-0.5",
                Size::Medium => "mm-px-3.5 mm-py-1",
                Size::Large => "mm-px-4 mm-py-1.5",
                Size::ExtraLarge => "mm-px-5 mm-py-2",
            },
            Variant::Underline => match size {
                Size::Small => "mm-py-0.5",
                Size::Medium => "mm-py-1",
                Size::Large => "mm-py-1.5",
                Size::ExtraLarge => "mm-py-3",
            },
        }
    }

    /// The border of an input.
    pub open spec fn spec_border_classes(self) -> Seq<char> {
        match self {
            Variant::Standard | Variant::Round => "mm-border mm-border-transparent-black-700 dark:mm-border-transparent-white-600 focus:mm-border-transparent-black-800 dark:focus:mm-border-transparent-white-800"@,
            Variant::Underline => "mm-border-b mm-border-b-transparent-black-400 dark:mm-border-b-transparent-white-400 focus:mm-border-b-transparent-black-800 dark:focus:mm-border-b-transparent-white-800"@,
        }
    }

    pub fn border_classes(self) -> (r: &'static str)
        ensures
            r@ == self.spec_border_classes(),
    {
        match self {
            Variant::Standard | Variant::Round => "mm-border mm-border-transparent-black-700 dark:mm-border-transparent-white-600 focus:mm-border-transparent-black-800 dark:focus:mm-border-transparent-white-800",
            Variant::Underline => "mm-border-b mm-border-b-transparent-black-400 dark:mm-border-b-transparent-white-400 focus:mm-border-b-transparent-black-800 dark:focus:mm-border-b-transparent-white-800",
        }
    }

    /// The rounding of the corners of an input in a size.
    pub open spec fn spec_border_radius_classes(self, size: Size) -> Seq<char> {
        match self {
            Variant::Standard => match size {
                Size::Small | Size::Medium | Size::Large => "mm-rounded-md"@,
                Size::ExtraLarge => "mm-rounded-lg"@,
            },
            Variant::Round => "mm-rounded-full"@,
            Variant::Underline => "mm-rounded-none"@,
        }
    }

    pub fn border_radius_classes(self, size: Size) -> (r: &'static str)
        ensures
            r@ == self.spec_border_radius_classes(size),
    {
        match self {
            Variant::Standard => match size {
                Size::Small | Size::Medium | Size::Large => "mm-rounded-md",
                Size::ExtraLarge => "mm-rounded-lg",
            },
            Variant::Round => "mm-rounded-full",
            Variant::Underline => "mm-rounded-none",
        }
    }
}

impl Size {
    /// The size and weight of the text of an input.
    pub open spec fn spec_text_size_classes(self) -> Seq<char> {
        match self {
            Size::Small => "mm-text-md mm-font-normal"@,
            Size::Medium => "mm-text-md mm-font-normal"@,
            Size::Large => "mm-text-md mm-font-normal"@,
            Size::ExtraLarge => "mm-text-3xl mm-font-medium"@,
        }
    }

    pub fn text_size_classes(self) -> (r: &'static str)
        ensures
            r@ == self.spec_text_size_classes(),
    {
        match self {
            Size::Small => "mm-text-md mm-font-normal",
            Size::Medium => "mm-text-md mm-font-normal",
            Size::Large => "mm-text-md mm-font-normal",
            Size::ExtraLarge => "mm-text-3xl mm-font-medium",
        }
    }
}

} // verus!
