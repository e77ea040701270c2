//! The looks of a table: its variant, and the style classes of its rows and
//! cells.

use vstd::prelude::*;

verus! {

/// How the rows of a table are set apart.
#[derive(Clone, Copy, Debug, PartialEq, Eq, Structural)]
pub enum Variant {
    Classic,
    Separated,
}

impl Default for Variant {
    fn default() -> (r: Variant)
        ensures
            r == Variant::Classic,
    {
        Variant::Classic
    }
}

/// Where a column stands in its row.
#[derive(Clone, Copy, Debug, PartialEq, Eq, Structural)]
pub enum ColumnPlace {
    First,
    Last,
    Inner,
}

impl ColumnPlace {
    /// The place of column `index` among `count` columns. The first column
    /// is `First` also where it is the only one.
    pub open spec fn spec_of(index: usize, count: usize) -> ColumnPlace {
        if index == 0 {
            ColumnPlace::First
        } else if index == count - 1 {
            ColumnPlace::Last
        } else {
            ColumnPlace::Inner
        }
    }

    pub fn of(index: usize, count: usize) -> (r: ColumnPlace)
        requires
            index < count,
        ensures
            r == Self::spec_of(index, count),
    {
        if index == 0 {
            ColumnPlace::First
        } else if index == count - 1 {
            ColumnPlace::Last
        } else {
            ColumnPlace::Inner
        }
    }
}

impl Variant {
    /// The width limit and rounding of a cell. Only separated rows have rounded
    /// ends.
    pub open spec fn spec_cell_classes(self, place: ColumnPlace) -> Seq<char> {
        match self {
            Variant::Separated => match place {
                ColumnPlace::First => "mm-max-w-lg mm-rounded-l-lg"@,
                ColumnPlace::Last => "mm-max-w-lg mm-rounded-r-lg"@,
                ColumnPlace::Inner => "mm-max-w-lg"@,
            },
            Variant::Classic => ""@,
        }
    }

    pub fn cell_classes(self, place: ColumnPlace) -> (r: &'static str)
        ensures
            r@ == self.spec_cell_classes(place),
    {
        match self {
            Variant::Separated => match place {
                ColumnPlace::First => "mm-max-w-lg mm-rounded-l-lg",
                ColumnPlace::Last => "mm-max-w-lg mm-rounded-r-lg",
                ColumnPlace::Inner => "mm-max-w-lg",
            },
            Variant::Classic => "",
        }
    }

    /// The width of a cell. The first column of a classic table takes what the
    /// others leave.
    pub open spec fn spec_width_classes(self, place: ColumnPlace) -> Seq<char> {
        match self {
            Variant::Classic => match place {
                ColumnPlace::First => "mm-w-[90%] mm-min-w-64"@,
                ColumnPlace::Last | ColumnPlace::Inner => ""@,
            },
            Variant::Separated => ""@,
        }
    }

    pub fn width_classes(self, place: ColumnPlace) -> (r: &'static str)
        ensures
            r@ == self.spec_width_classes(place),
    {
        match self {
            Variant::Classic => match place {
                ColumnPlace::First => "mm-w-[90%] mm-min-w-64",
                ColumnPlace::Last | ColumnPlace::Inner => "",
            },
            Variant::Separated => "",
        }
    }

    /// The line below a row.
    pub open spec fn spec_row_border_classes(self) -> Seq<char> {
        match self {
            Variant::Separated => ""@,
            Variant::Classic => "mm-border-b mm-border-gray-high-500 dark:mm-border-gray-low-800"@,
        }
    }

    pub fn row_border_classes(self) -> (r: &'static str)
        ensures
            r@ == self.spec_row_border_classes(),
    {
        match self {
            Variant::Separated => "",
            Variant::Classic => "mm-border-b mm-border-gray-high-500 dark:mm-border-gray-low-800",
        }
    }

    /// The space between the rows of a table.
    pub open spec fn spec_separation_classes(self) -> Seq<char> {
        match self {
            Variant::Classic => ""@,
            Variant::Separated => "mm-space-y-3 mm-border-spacing-y-3 mm-border-separate mm--mt-3"@,
        }
    }

    pub fn separation_classes(self) -> (r: &'static str)
        ensures
            r@ == self.spec_separation_classes(),
    {
        match self {
            Variant::Classic => "",
            Variant::Separated => "mm-space-y-3 mm-border-spacing-y-3 mm-border-separate mm--mt-3",
        }
    }
}

} // verus!
