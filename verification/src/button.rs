//! The first look of the button: unprefixed style classes, four sizes and five
//! colours. Sites that were styled for it keep using it; new ones use
//! `components::button`.

use vstd::prelude::*;

verus! {

/// The colour scheme of a button.
#[derive(Clone, Copy, Debug, PartialEq, Eq, Structural)]
pub enum Color {
    Primary,
    Secondary,
    Dark,
    Danger,
    Success,
}

impl Default for Color {
    fn default() -> (r: Color)
        ensures
            r == Color::Primary,
    {
        Color::Primary
    }
}

/// How a button is filled.
#[derive(Clone, Copy, Debug, PartialEq, Eq, Structural)]
pub enum Variant {
    Solid,
    Outline,
    Transparent,
}

impl Default for Variant {
    fn default() -> (r: Variant)
        ensures
            r == Variant::Solid,
    {
        Variant::Solid
    }
}

/// The size of a button.
#[derive(Clone, Copy, Debug, PartialEq, Eq, Structural)]
pub enum Size {
    Small,
    Medium,
    Large,
    ExtraLarge,
}

impl Default for Size {
    fn default() -> (r: Size)
        ensures
            r == Size::Medium,
    {
        Size::Medium
    }
}

/// How the corners of a button are rounded.
#[derive(Clone, Copy, Debug, PartialEq, Eq, Structural)]
pub enum Rounded {
    Auto,
    Full,
}

impl Default for Rounded {
    fn default() -> (r: Rounded)
        ensures
            r == Rounded::Auto,
    {
        Rounded::Auto
    }
}

impl Color {
    /// The name of the colour, in lower case.
    pub open spec fn spec_label(self) -> Seq<char> {
        match self {
            Color::Primary => "primary"@,
            Color::Secondary => "secondary"@,
            Color::Success => "success"@,
            Color::Danger => "danger"@,
            Color::Dark => "dark"@,
        }
    }

    pub fn label(self) -> (r: &'static str)
        ensures
            r@ == self.spec_label(),
    {
        match self {
            Color::Primary => "primary",
            Color::Secondary => "secondary",
            Color::Success => "success",
            Color::Danger => "danger",
            Color::Dark => "dark",
        }
    }

    /// The colours of a button.
    pub open spec fn spec_color_classes(self) -> Seq<char> {
        match self {
            Color::Primary => "text-white bg-primary-700 hover:bg-primary-600"@,
            Color::Secondary => "bg-transparent border border-gray-high-950 dark:border-gray-low-300 hover:border-gray-high-700 dark:hover:border-gray-low-50 text-gray-low-500 dark:text-gray-high-950 hover:text-gray-low-50 dark:hover:text-gray-high-700"@,
            Color::Success => "text-white bg-success-500 hover:bg-success-600"@,
            Color::Danger => "text-white bg-danger-500 hover:bg-danger-600"@,
            Color::Dark => "text-gray-800 bg-gray-100 hover:bg-gray-200"@,
        }
    }

    pub fn color_classes(self) -> (r: &'static str)
        ensures
            r@ == self.spec_color_classes(),
    {
        match self {
            Color::Primary => "text-white bg-primary-700 hover:bg-primary-600",
            Color::Secondary => "bg-transparent border border-gray-high-950 dark:border-gray-low-300 hover:border-gray-high-700 dark:hover:border-gray-low-50 text-gray-low-500 dark:text-gray-high-950 hover:text-gray-low-50 dark:hover:text-gray-high-700",
            Color::Success => "text-white bg-success-500 hover:bg-success-600",
            Color::Danger => "text-white bg-danger-500 hover:bg-danger-600",
            Color::Dark => "text-gray-800 bg-gray-100 hover:bg-gray-200",
        }
    }
}

impl Variant {
    /// The name of the variant, in lower case.
    pub open spec fn spec_label(self) -> Seq<char> {
        match self {
            Variant::Solid => "solid"@,
            Variant::Outline => "outline"@,
            Variant::Transparent => "transparent"@,
        }
    }

    pub fn label(self) -> (r: &'static str)
        ensures
            r@ == self.spec_label(),
    {
        match self {
            Variant::Solid => "solid",
            Variant::Outline => "outline",
            Variant::Transparent => "transparent",
        }
    }
}

impl Rounded {
    /// The name of the rounding, in lower case.
    pub open spec fn spec_label(self) -> Seq<char> {
        match self {
            Rounded::Auto => "rounded-auto"@,
            Rounded::Full => "rounded-full"@,
        }
    }

    pub fn label(self) -> (r: &'static str)
        ensures
            r@ == self.spec_label(),
    {
        match self {
            Rounded::Auto => "rounded-auto",
            Rounded::Full => "rounded-full",
        }
    }
}

impl Size {
    /// The padding of a button.
    pub open spec fn spec_padding_classes(self) -> Seq<char> {
        match self {
            Size::Small => "px-2 py-1"@,
            Size::Medium => "px-2.5 py-1.5"@,
            Size::Large => "px-3 py-2"@,
            Size::ExtraLarge => "px-2 py-1"@,
        }
    }

    pub fn padding_classes(self) -> (r: &'static str)
        ensures
            r@ == self.spec_padding_classes(),
    {
        match self {
            Size::Small => "px-2 py-1",
            Size::Medium => "px-2.5 py-1.5",
            Size::Large => "px-3 py-2",
            Size::ExtraLarge => "px-2 py-1",
        }
    }

    /// The size and weight of the text of a button.
    pub open spec fn spec_text_size_class(self) -> Seq<char> {
        match self {
            Size::Small => "text-sm font-medium"@,
            Size::Medium => "text-sm font-medium"@,
            Size::Large => "text-sm font-medium"@,
            Size::ExtraLarge => "text-xs"@,
        }
    }

    pub fn text_size_class(self) -> (r: &'static str)
        ensures
            r@ == self.spec_text_size_class(),
    {
        match self {
            Size::Small => "text-sm font-medium",
            Size::Medium => "text-sm font-medium",
            Size::Large => "text-sm font-medium",
            Size::ExtraLarge => "text-xs",
        }
    }
}

} // verus!
