//! The looks of a button: its colour, variant, size, rounding and width, and the
//! style classes that each choice stands for.

use vstd::prelude::*;

verus! {

/// The colour scheme of a button.
#[derive(Clone, Copy, Debug, PartialEq, Eq, Structural)]
pub enum Color {
    Primary,
    Secondary,
    Blind,
    Danger,
    Success,
}

impl Default for Color {
    fn default() -> (r: Color)
        ensures
            r == Color::Primary,
    {
        Color::Primary
    }
}

/// How a button is filled.
#[derive(Clone, Copy, Debug, PartialEq, Eq, Structural)]
pub enum Variant {
    Solid,
    Outline,
    Transparent,
}

impl Default for Variant {
    fn default() -> (r: Variant)
        ensures
            r == Variant::Solid,
    {
        Variant::Solid
    }
}

/// The size of a button.
#[derive(Clone, Copy, Debug, PartialEq, Eq, Structural)]
pub enum Size {
    ExtraSmall,
    Small,
    Medium,
    Large,
    ExtraLarge,
}

impl Default for Size {
    fn default() -> (r: Size)
        ensures
            r == Size::Medium,
    {
        Size::Medium
    }
}

/// How the corners of a button are rounded.
#[derive(Clone, Copy, Debug, PartialEq, Eq, Structural)]
pub enum Round {
    Auto,
    Full,
}

impl Default for Round {
    fn default() -> (r: Round)
        ensures
            r == Round::Auto,
    {
        Round::Auto
    }
}

/// How wide a button is.
#[derive(Clone, Copy, Debug, PartialEq, Eq, Structural)]
pub enum Width {
    Auto,
    Full,
}

impl Default for Width {
    fn default() -> (r: Width)
        ensures
            r == Width::Auto,
    {
        Width::Auto
    }
}

/// What a button shows: an icon on the left, a text or children, an icon on the
/// right. Four arrangements exist.
#[derive(Clone, Copy, Debug, PartialEq, Eq, Structural)]
pub enum Content {
    IconOnly,
    IconAndText,
    TextAndIcon,
    TextOnly,
}

impl Content {
    /// The arrangement that a button with these parts has, if it is one of
    /// the four: a left icon alone, a left icon and content, content and a
    /// right icon, content alone.
    pub open spec fn spec_of(left_icon: bool, content: bool, right_icon: bool) -> Option<Content> {
        if left_icon && !content && !right_icon {
            Some(Content::IconOnly)
        } else if left_icon && content && !right_icon {
            Some(Content::IconAndText)
        } else if !left_icon && content && right_icon {
            Some(Content::TextAndIcon)
        } else if !left_icon && content && !right_icon {
            Some(Content::TextOnly)
        } else {
            None
        }
    }

    /// Tells the arrangement of a button from the parts it has. A button
    /// without any part, with two icons, or with a right icon and no content
    /// has none.
    pub fn of(left_icon: bool, content: bool, right_icon: bool) -> (r: Option<Content>)
        ensures
            r == Self::spec_of(left_icon, content, right_icon),
    {
        if left_icon && !content && !right_icon {
            Some(Content::IconOnly)
        } else if left_icon && content && !right_icon {
            Some(Content::IconAndText)
        } else if !left_icon && content && right_icon {
            Some(Content::TextAndIcon)
        } else if !left_icon && content && !right_icon {
            Some(Content::TextOnly)
        } else {
            None
        }
    }

    /// The padding of a button of this arrangement in a size.
    pub open spec fn spec_padding_classes(self, size: Size) -> Seq<char> {
        match self {
            Content::IconOnly => match size {
                Size::ExtraSmall => "mm-p-1"@,
                Size::Small => "mm-p-1.5"@,
                Size::Medium => "mm-p-1.5"@,
                Size::Large => "mm-p-2"@,
                Size::ExtraLarge => "mm-p-3"@,
            },
            Content::IconAndText => match size {
                Size::ExtraSmall => "mm-pl-1.5 mm-pr-2.5 mm-py-1"@,
                Size::Small => "mm-pl-2 mm-pr-3 mm-py-1.5"@,
                Size::Medium => "mm-pl-2 mm-pr-3 mm-py-1.5"@,
                Size::Large => "mm-pl-2.5 mm-pr-3.5 mm-py-2"@,
                Size::ExtraLarge => "mm-pl-3.5 mm-pr-5 mm-py-3"@,
            },
            Content::TextAndIcon => match size {
                Size::ExtraSmall => "mm-pr-1.5 mm-pl-2.5 mm-py-1"@,
                Size::Small => "mm-pr-2 mm-pl-3 mm-py-1.5"@,
                Size::Medium => "mm-pr-2 mm-pl-3 mm-py-1.5"@,
                Size::Large => "mm-pr-2.5 mm-pl-3.5 mm-py-2"@,
                Size::ExtraLarge => "mm-pr-3.5 mm-pl-5 mm-py-3"@,
            },
            Content::TextOnly => match size {
                Size::ExtraSmall => "mm-px-2.5 mm-py-1"@,
                Size::Small => "mm-px-3 mm-py-1.5"@,
                Size::Medium => "mm-px-3 mm-py-1.5"@,
                Size::Large => "mm-px-3.5 mm-py-2"@,
                Size::ExtraLarge => "mm-px-5 mm-py-3"@,
            },
        }
    }

    pub fn padding_classes(self, size: Size) -> (r: &'static str)
        ensures
            r@ == self.spec_padding_classes(size),
    {
        match self {
            Content::IconOnly => match size {
                Size::ExtraSmall => "mm-p-1",
                Size::Small => "mm-p-1.5",
                Size::Medium => "mm-p-1.5",
                Size::Large => "mm-p-2",
                Size::ExtraLarge => "mm-p-3",
            },
            Content::IconAndText => match size {
                Size::ExtraSmall => "mm-pl-1.5 mm-pr-2.5 mm-py-1",
                Size::Small => "mm-pl-2 mm-pr-3 mm-py-1.5",
                Size::Medium => "mm-pl-2 mm-pr-3 mm-py-1.5",
                Size::Large => "mm-pl-2.5 mm-pr-3.5 mm-py-2",
                Size::ExtraLarge => "mm-pl-3.5 mm-pr-5 mm-py-3",
            },
            Content::TextAndIcon => match size {
                Size::ExtraSmall => "mm-pr-1.5 mm-pl-2.5 mm-py-1",
                Size::Small => "mm-pr-2 mm-pl-3 mm-py-1.5",
                Size::Medium => "mm-pr-2 mm-pl-3 mm-py-1.5",
                Size::Large => "mm-pr-2.5 mm-pl-3.5 mm-py-2",
                Size::ExtraLarge => "mm-pr-3.5 mm-pl-5 mm-py-3",
            },
            Content::TextOnly => match size {
                Size::ExtraSmall => "mm-px-2.5 mm-py-1",
                Size::Small => "mm-px-3 mm-py-1.5",
                Size::Medium => "mm-px-3 mm-py-1.5",
                Size::Large => "mm-px-3.5 mm-py-2",
                Size::ExtraLarge => "mm-px-5 mm-py-3",
            },
        }
    }
}

impl Size {
    /// The size of the text of a button.
    pub open spec fn spec_text_size_class(self) -> Seq<char> {
        match self {
            Size::ExtraSmall => "mm-text-xs"@,
            Size::Small => "mm-text-sm"@,
            Size::Medium => "mm-text-sm"@,
            Size::Large => "mm-text-sm"@,
            Size::ExtraLarge => "mm-text-md"@,
        }
    }

    pub fn text_size_class(self) -> (r: &'static str)
        ensures
            r@ == self.spec_text_size_class(),
    {
        match self {
            Size::ExtraSmall => "mm-text-xs",
            Size::Small => "mm-text-sm",
            Size::Medium => "mm-text-sm",
            Size::Large => "mm-text-sm",
            Size::ExtraLarge => "mm-text-md",
        }
    }

    /// The size of the left icon of a button.
    pub open spec fn spec_icon_size_class(self) -> Seq<char> {
        match self {
            Size::ExtraSmall => "mm-text-base"@,
            Size::Small => "mm-text-base"@,
            Size::Medium => "text-xl"@,
            Size::Large => "text-xl"@,
            Size::ExtraLarge => "text-2xl"@,
        }
    }

    pub fn icon_size_class(self) -> (r: &'static str)
        ensures
            r@ == self.spec_icon_size_class(),
    {
        match self {
            Size::ExtraSmall => "mm-text-base",
            Size::Small => "mm-text-base",
            Size::Medium => "text-xl",
            Size::Large => "text-xl",
            Size::ExtraLarge => "text-2xl",
        }
    }
}

impl Color {
    /// The colours of a button in a variant. Success and danger look the same
    /// in every variant.
    pub open spec fn spec_color_classes(self, variant: Variant) -> Seq<char> {
        match self {
            Color::Primary => match variant {
                Variant::Solid => "mm-text-white mm-bg-primary-700 hover:mm-bg-primary-600 disabled:mm-opacity-30 disabled:hover:mm-bg-primary-700"@,
                Variant::Transparent => "mm-text-primary-700 mm-bg-transparent mm-border mm-border-primary-700 hover:mm-bg-primary-700 mm-text-white mm-box-border"@,
                Variant::Outline => "mm-bg-transparent hover:mm-bg-transparent-black-300 dark:hover:mm-bg-transparent-white-200 disabled:mm-opacity-30 mm-text-primary-700 dark:mm-text-primary-500 mm-border mm-border-primary-700 dark:mm-border-primary-500 mm-box-border"@,
            },
            Color::Secondary => match variant {
                Variant::Solid => "mm-bg-transparent-black-300 dark:mm-bg-transparent-white-300 hover:mm-bg-transparent-black-400 dark:hover:mm-bg-transparent-white-400 disabled:mm-opacity-30 disabled:mm-bg-transparent-black-300 disabled:dark:mm-bg-transparent-white-300 mm-text-gray-low-800 dark:mm-text-gray-high-200"@,
                Variant::Transparent => "mm-bg-transparent hover:mm-bg-transparent-black-300 dark:hover:mm-bg-transparent-white-200 disabled:mm-opacity-30 mm-text-gray-low-100 dark:mm-text-gray-low-200 hover:mm-text-gray-low-400 dark:hover:mm-text-gray-high-700"@,
                Variant::Outline => "mm-bg-transparent mm-border mm-border-gray-high-950 dark:mm-border-gray-low-300 hover:mm-border-gray-high-700 dark:hover:mm-border-gray-low-50 mm-text-gray-low-500 dark:mm-text-gray-high-950 hover:mm-text-gray-low-50 dark:hover:mm-text-gray-high-700 mm-box-border"@,
            },
            Color::Blind => match variant {
                Variant::Solid => "mm-bg-transparent-black-300 dark:mm-bg-transparent-white-300 hover:mm-bg-transparent-black-400 dark:hover:mm-bg-transparent-white-400 disabled:mm-opacity-30 mm-text-gray-low-100 dark:mm-text-gray-low-200"@,
                Variant::Outline => "mm-bg-transparent hover:mm-bg-transparent-black-300 dark:hover:mm-bg-transparent-white-200 disabled:mm-opacity-30 mm-text-gray-low-100 dark:mm-text-gray-low-200 mm-border mm-border-gray-high-800 dark:mm-border-gray-low-300 mm-box-border"@,
                Variant::Transparent => "mm-bg-transparent hover:mm-bg-transparent-black-300 dark:hover:mm-bg-transparent-white-200 disabled:mm-opacity-30 mm-text-gray-low-100 dark:mm-text-gray-low-200"@,
            },
            Color::Success => "mm-text-white mm-bg-success-500 hover:mm-bg-success-600"@,
            Color::Danger => "mm-text-white mm-bg-danger-500 hover:mm-bg-danger-600"@,
        }
    }

    pub fn color_classes(self, variant: Variant) -> (r: &'static str)
        ensures
            r@ == self.spec_color_classes(variant),
    {
        match self {
            Color::Primary => match variant {
                Variant::Solid => "mm-text-white mm-bg-primary-700 hover:mm-bg-primary-600 disabled:mm-opacity-30 disabled:hover:mm-bg-primary-700",
                Variant::Transparent => "mm-text-primary-700 mm-bg-transparent mm-border mm-border-primary-700 hover:mm-bg-primary-700 mm-text-white mm-box-border",
                Variant::Outline => "mm-bg-transparent hover:mm-bg-transparent-black-300 dark:hover:mm-bg-transparent-white-200 disabled:mm-opacity-30 mm-text-primary-700 dark:mm-text-primary-500 mm-border mm-border-primary-700 dark:mm-border-primary-500 mm-box-border",
            },
            Color::Secondary => match variant {
                Variant::Solid => "mm-bg-transparent-black-300 dark:mm-bg-transparent-white-300 hover:mm-bg-transparent-black-400 dark:hover:mm-bg-transparent-white-400 disabled:mm-opacity-30 disabled:mm-bg-transparent-black-300 disabled:dark:mm-bg-transparent-white-300 mm-text-gray-low-800 dark:mm-text-gray-high-200",
                Variant::Transparent => "mm-bg-transparent hover:mm-bg-transparent-black-300 dark:hover:mm-bg-transparent-white-200 disabled:mm-opacity-30 mm-text-gray-low-100 dark:mm-text-gray-low-200 hover:mm-text-gray-low-400 dark:hover:mm-text-gray-high-700",
                Variant::Outline => "mm-bg-transparent mm-border mm-border-gray-high-950 dark:mm-border-gray-low-300 hover:mm-border-gray-high-700 dark:hover:mm-border-gray-low-50 mm-text-gray-low-500 dark:mm-text-gray-high-950 hover:mm-text-gray-low-50 dark:hover:mm-text-gray-high-700 mm-box-border",
            },
            Color::Blind => match variant {
                Variant::Solid => "mm-bg-transparent-black-300 dark:mm-bg-transparent-white-300 hover:mm-bg-transparent-black-400 dark:hover:mm-bg-transparent-white-400 disabled:mm-opacity-30 mm-text-gray-low-100 dark:mm-text-gray-low-200",
                Variant::Outline => "mm-bg-transparent hover:mm-bg-transparent-black-300 dark:hover:mm-bg-transparent-white-200 disabled:mm-opacity-30 mm-text-gray-low-100 dark:mm-text-gray-low-200 mm-border mm-border-gray-high-800 dark:mm-border-gray-low-300 mm-box-border",
                Variant::Transparent => "mm-bg-transparent hover:mm-bg-transparent-black-300 dark:hover:mm-bg-transparent-white-200 disabled:mm-opacity-30 mm-text-gray-low-100 dark:mm-text-gray-low-200",
            },
            Color::Success => "mm-text-white mm-bg-success-500 hover:mm-bg-success-600",
            Color::Danger => "mm-text-white mm-bg-danger-500 hover:mm-bg-danger-600",
        }
    }
}

impl Round {
    /// The rounding of the corners of a button in a size.
    pub open spec fn spec_rounded_class(self, size: Size) -> Seq<char> {
        match self {
            Round::Auto => match size {
                Size::ExtraSmall => "mm-rounded"@,
                Size::Small => "mm-rounded"@,
                Size::Medium => "mm-rounded-md"@,
                Size::Large => "mm-rounded-lg"@,
                Size::ExtraLarge => "mm-rounded-lg"@,
            },
            Round::Full => "mm-rounded-full"@,
        }
    }

    pub fn rounded_class(self, size: Size) -> (r: &'static str)
        ensures
            r@ == self.spec_rounded_class(size),
    {
        match self {
            Round::Auto => match size {
                Size::ExtraSmall => "mm-rounded",
                Size::Small => "mm-rounded",
                Size::Medium => "mm-rounded-md",
                Size::Large => "mm-rounded-lg",
                Size::ExtraLarge => "mm-rounded-lg",
            },
            Round::Full => "mm-rounded-full",
        }
    }
}

impl Width {
    /// The width of a button; a full width button centres what it shows.
    pub open spec fn spec_width_class(self) -> Seq<char> {
        match self {
            Width::Auto => "mm-w-auto"@,
            Width::Full => "mm-w-full mm-justify-center"@,
        }
    }

    pub fn width_class(self) -> (r: &'static str)
        ensures
            r@ == self.spec_width_class(),
    {
        match self {
            Width::Auto => "mm-w-auto",
            Width::Full => "mm-w-full mm-justify-center",
        }
    }
}

} // verus!
