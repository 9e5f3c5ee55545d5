//! One row of the list and the policy that styles it.
//!
//! A row is an index, a snapshot of the company at that index and a
//! selection flag. Styling it is a pure function of those three and of the
//! sign of the day's change: no theme is consulted here, the policy names
//! the paints and the host resolves them.

use crate::binary64::Binary64;
use crate::company::{Company, CompanyView};
use vstd::prelude::*;

verus! {

/// The direction of a change ratio.
#[derive(Clone, Copy, Debug, PartialEq, Eq, Structural)]
pub enum Trend {
    /// The ratio compares greater than zero.
    Rising,
    /// The ratio compares less than zero.
    Falling,
    /// Neither: the ratio is a zero or a NaN.
    Flat,
}

impl Trend {
    /// The direction of `change`.
    pub open spec fn of_spec(change: Binary64) -> Trend {
        if change.is_positive_spec() {
            Trend::Rising
        } else if change.is_negative_spec() {
            Trend::Falling
        } else {
            Trend::Flat
        }
    }

    /// The direction of `change`.
    #[verifier::when_used_as_spec(of_spec)]
    pub fn of(change: Binary64) -> (trend: Trend)
        ensures
            trend == Trend::of_spec(change),
    {
        if change.is_positive() {
            Trend::Rising
        } else if change.is_negative() {
            Trend::Falling
        } else {
            Trend::Flat
        }
    }
}

/// A colour, by the name under which the host's theme knows it, or as a
/// fixed hue, saturation and lightness.
#[derive(Clone, Copy, Debug, PartialEq, Eq, Structural)]
pub enum Paint {
    /// The theme's default foreground.
    Foreground,
    /// The theme's foreground on an accented surface.
    AccentForeground,
    /// The theme's background of the active list row.
    ListActive,
    /// The theme's background of a list row.
    List,
    /// The theme's background of every other list row.
    ListEven,
    /// A colour of its own: hue in degrees, saturation and lightness in
    /// percent.
    Hsl { hue: u16, saturation: u8, lightness: u8 },
}

/// The paint of a rising quote.
pub open spec fn rising_paint() -> Paint {
    Paint::Hsl { hue: 0, saturation: 79, lightness: 53 }
}

/// The paint of a falling quote.
pub open spec fn falling_paint() -> Paint {
    Paint::Hsl { hue: 100, saturation: 79, lightness: 53 }
}

/// The resolved paints of one row.
#[derive(Clone, Copy, Debug, PartialEq, Eq, Structural)]
pub struct RowStyle {
    /// The paint of the labels and of the price.
    pub text_color: Paint,
    /// The paint of the change ratio.
    pub trend_color: Paint,
    /// The paint behind the row.
    pub background: Paint,
}

/// One row: the company at index `ix`, as it was when the row was built.
#[derive(Debug, PartialEq)]
pub struct CompanyListItem {
    /// The key under which the host tells rows apart.
    pub id: usize,
    /// The row's index in the list.
    pub ix: usize,
    /// The snapshot of the company.
    pub company: Company,
    /// Whether the row is the selected one.
    pub selected: bool,
}

/// What a [`CompanyListItem`] is, mathematically.
pub struct ItemView {
    pub id: usize,
    pub ix: usize,
    pub company: CompanyView,
    pub selected: bool,
}

impl ItemView {
    /// Labels and price: accented on the selected row, default elsewhere.
    pub open spec fn text_color(self) -> Paint {
        if self.selected {
            Paint::AccentForeground
        } else {
            Paint::Foreground
        }
    }

    /// The change ratio: one paint when rising, another when falling, the
    /// default foreground when flat.
    pub open spec fn trend_color(self, change: Binary64) -> Paint {
        match Trend::of_spec(change) {
            Trend::Rising => rising_paint(),
            Trend::Falling => falling_paint(),
            Trend::Flat => Paint::Foreground,
        }
    }

    /// The background: the highlight on the selected row; elsewhere one of
    /// two stripes, by the parity of the index.
    pub open spec fn background(self) -> Paint {
        if self.selected {
            Paint::ListActive
        } else if self.ix % 2 == 0 {
            Paint::List
        } else {
            Paint::ListEven
        }
    }

    /// The three paints together.
    pub open spec fn render(self, change: Binary64) -> RowStyle {
        RowStyle {
            text_color: self.text_color(),
            trend_color: self.trend_color(change),
            background: self.background(),
        }
    }
}

impl View for CompanyListItem {
    type V = ItemView;

    open spec fn view(&self) -> ItemView {
        ItemView { id: self.id, ix: self.ix, company: self.company@, selected: self.selected }
    }
}

/// The view of a row that may be absent.
pub open spec fn view_of(item: Option<CompanyListItem>) -> Option<ItemView> {
    match item {
        Some(item) => Some(item@),
        None => None,
    }
}

impl CompanyListItem {
    /// The row of `company` at index `ix`, known to the host as `id`.
    pub fn new(id: usize, company: Company, ix: usize, selected: bool) -> (item: Self)
        ensures
            item@ == (ItemView { id, ix, company: company@, selected }),
    {
        CompanyListItem { company, ix, id, selected }
    }

    /// The paint of the labels and of the price.
    pub fn text_color(&self) -> (paint: Paint)
        ensures
            paint == self@.text_color(),
    {
        if self.selected {
            Paint::AccentForeground
        } else {
            Paint::Foreground
        }
    }

    /// The paint of the change ratio `change`.
    pub fn trend_color(&self, change: Binary64) -> (paint: Paint)
        ensures
            paint == self@.trend_color(change),
    {
        match Trend::of(change) {
            Trend::Rising => Paint::Hsl { hue: 0, saturation: 79, lightness: 53 },
            Trend::Falling => Paint::Hsl { hue: 100, saturation: 79, lightness: 53 },
            Trend::Flat => Paint::Foreground,
        }
    }

    /// The paint behind the row.
    pub fn background(&self) -> (paint: Paint)
        ensures
            paint == self@.background(),
    {
        if self.selected {
            Paint::ListActive
        } else if self.ix % 2 == 0 {
            Paint::List
        } else {
            Paint::ListEven
        }
    }

    /// Styles the row, given the company's change ratio.
    pub fn render(&self, change: Binary64) -> (style: RowStyle)
        ensures
            style == self@.render(change),
    {
        RowStyle {
            text_color: self.text_color(),
            trend_color: self.trend_color(change),
            background: self.background(),
        }
    }
}

/// Two rows that are not selected have the same background exactly when
/// their indices have the same parity, whatever companies they show.
pub proof fn zebra_striping(a: ItemView, b: ItemView)
    requires
        !a.selected,
        !b.selected,
    ensures
        a.background() == b.background() <==> a.ix % 2 == b.ix % 2,
{
}

/// A row that is not selected and the row that follows it, if that is not
/// selected either, differ in background.
pub proof fn stripes_alternate(a: ItemView, b: ItemView)
    requires
        !a.selected,
        !b.selected,
        b.ix == a.ix + 1,
    ensures
        a.background() != b.background(),
{
}

/// The paint of the change ratio tells its direction: the three paints
/// differ, and each stands for one direction.
pub proof fn trend_color_tells_direction(item: ItemView, change: Binary64)
    ensures
        item.trend_color(change) == rising_paint() <==> change.is_positive_spec(),
        item.trend_color(change) == falling_paint() <==> change.is_negative_spec(),
        item.trend_color(change) == Paint::Foreground <==> change.is_zero_spec()
            || change.is_nan_spec(),
{
    crate::binary64::sides_of_zero(change);
}

/// The selected row has the highlight and an accented text; no other row
/// has either.
pub proof fn selection_is_highlighted(item: ItemView)
    ensures
        item.selected <==> item.background() == Paint::ListActive,
        item.selected <==> item.text_color() == Paint::AccentForeground,
{
}

} // verus!
