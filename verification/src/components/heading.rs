//! Headings of six levels.

use vstd::prelude::*;

verus! {

/// The level of a heading.
#[derive(Clone, Copy, Debug, PartialEq, Eq, Structural)]
pub enum Level {
    H1,
    H2,
    H3,
    H4,
    H5,
    H6,
}

impl Default for Level {
    fn default() -> (r: Level)
        ensures
            r == Level::H1,
    {
        Level::H1
    }
}

impl Level {
    /// The element that a heading of this level is.
    pub open spec fn spec_tag(self) -> Seq<char> {
        match self {
            Level::H1 => "h1"@,
            Level::H2 => "h2"@,
            Level::H3 => "h3"@,
            Level::H4 => "h4"@,
            Level::H5 => "h5"@,
            Level::H6 => "h6"@,
        }
    }

    pub fn tag(self) -> (r: &'static str)
        ensures
            r@ == self.spec_tag(),
    {
        match self {
            Level::H1 => "h1",
            Level::H2 => "h2",
            Level::H3 => "h3",
            Level::H4 => "h4",
            Level::H5 => "h5",
            Level::H6 => "h6",
        }
    }

    /// The size and weight of the text of a heading.
    pub open spec fn spec_class(self) -> Seq<char> {
        match self {
            Level::H1 => "mm-text-4xl mm-font-bold"@,
            Level::H2 => "mm-text-3xl mm-font-bold"@,
            Level::H3 => "mm-text-2xl mm-font-bold"@,
            Level::H4 => "mm-text-xl mm-font-bold"@,
            Level::H5 => "mm-text-lg mm-font-bold"@,
            Level::H6 => "mm-text-md mm-font-bold"@,
        }
    }

    pub fn class(self) -> (r: &'static str)
        ensures
            r@ == self.spec_class(),
    {
        match self {
            Level::H1 => "mm-text-4xl mm-font-bold",
            Level::H2 => "mm-text-3xl mm-font-bold",
            Level::H3 => "mm-text-2xl mm-font-bold",
            Level::H4 => "mm-text-xl mm-font-bold",
            Level::H5 => "mm-text-lg mm-font-bold",
            Level::H6 => "mm-text-md mm-font-bold",
        }
    }
}

} // verus!
