//! The list delegate: it owns the companies and the selection, and answers
//! the container that shows them.
//!
//! The container asks for a count and for rows by index, and reports what
//! the user selects and confirms. The delegate never acts on the host by
//! itself: where the host has something to do, the call returns a
//! [`Signal`] that says what.

use crate::binary64::Binary64;
use crate::company;
use crate::company::{Company, CompanyView};
use crate::list_item;
use crate::list_item::{CompanyListItem, ItemView};
use vstd::prelude::*;

verus! {

/// What the host is to do after a call into the delegate.
#[derive(Clone, Copy, Debug, PartialEq, Eq, Structural)]
pub enum Signal {
    /// The view is out of date: draw it again.
    Notify,
    /// A selection was confirmed. The signal carries no payload: the host
    /// asks the delegate for the selected company.
    SelectedCompany,
}

/// The delegate of the company list.
#[derive(Debug, PartialEq)]
pub struct CompanyListDelegate {
    /// The companies, in the order of their rows.
    pub companies: Vec<Company>,
    /// The selected row, if one was ever selected. It is stored as it comes
    /// and may lie beyond the last row.
    pub selected_index: Option<usize>,
}

/// What a [`CompanyListDelegate`] is, mathematically: a sequence of
/// companies and an optional index.
pub struct DelegateView {
    pub companies: Seq<CompanyView>,
    pub selected_index: Option<usize>,
}

impl DelegateView {
    /// The number of rows.
    pub open spec fn items_count(self) -> nat {
        self.companies.len()
    }

    /// The stored selection.
    pub open spec fn confirmed_index(self) -> Option<usize> {
        self.selected_index
    }

    /// Whether the selection, if there is one, points at a row.
    pub open spec fn selection_in_range(self) -> bool {
        self.selected_index matches Some(ix) ==> ix < self.companies.len()
    }

    /// The delegate after `ix` was confirmed: an index is stored whatever
    /// its value, the absence of one changes nothing.
    pub open spec fn confirm(self, ix: Option<usize>) -> DelegateView {
        match ix {
            Some(ix) => DelegateView { selected_index: Some(ix), ..self },
            None => self,
        }
    }

    /// The delegate after the selection moved to `ix`: an index is stored
    /// whatever its value, the absence of one changes nothing. The
    /// selection is never cleared.
    pub open spec fn set_selected_index(self, ix: Option<usize>) -> DelegateView {
        match ix {
            Some(ix) => DelegateView { selected_index: Some(ix), ..self },
            None => self,
        }
    }

    /// The row at `ix`: none beyond the last company; else the company at
    /// `ix` under the key `ix`, flagged as selected exactly when `ix` is the
    /// stored selection.
    pub open spec fn render_item(self, ix: usize) -> Option<ItemView> {
        if ix < self.companies.len() {
            Some(
                ItemView {
                    id: ix,
                    ix,
                    company: self.companies[ix as int],
                    selected: self.selected_index == Some(ix),
                },
            )
        } else {
            None
        }
    }

    /// The company that the selection points at, if it points at one.
    pub open spec fn selected_company(self) -> Option<CompanyView> {
        match self.selected_index {
            Some(ix) if ix < self.companies.len() => Some(self.companies[ix as int]),
            _ => None,
        }
    }

    /// Whether `after` is `self` with nothing changed but prices last done,
    /// each of them an outcome of `draw` on its company's previous close.
    pub open spec fn refreshed_by<F: Fn(Binary64) -> Binary64>(
        self,
        draw: &F,
        after: DelegateView,
    ) -> bool {
        &&& after.selected_index == self.selected_index
        &&& after.companies.len() == self.companies.len()
        &&& forall|i: int|
            #![trigger after.companies[i]]
            0 <= i < self.companies.len() ==> {
                &&& call_ensures(draw, (self.companies[i].prev_close,), after.companies[i].last_done)
                &&& after.companies[i] == self.companies[i].with_last_done(
                    after.companies[i].last_done,
                )
            }
    }
}

impl View for CompanyListDelegate {
    type V = DelegateView;

    open spec fn view(&self) -> DelegateView {
        DelegateView {
            companies: company::views(self.companies@),
            selected_index: self.selected_index,
        }
    }
}

impl CompanyListDelegate {
    /// A delegate over `companies` with the given selection.
    pub fn new(companies: Vec<Company>, selected_index: Option<usize>) -> (delegate: Self)
        ensures
            delegate@ == (DelegateView { companies: company::views(companies@), selected_index }),
    {
        CompanyListDelegate { companies, selected_index }
    }

    /// The number of rows, as it is now.
    pub fn items_count(&self) -> (count: usize)
        ensures
            count == self@.items_count(),
    {
        self.companies.len()
    }

    /// The stored selection.
    pub fn confirmed_index(&self) -> (ix: Option<usize>)
        ensures
            ix == self@.confirmed_index(),
    {
        self.selected_index
    }

    /// Confirms a selection. An index is stored, whatever its value; the
    /// host is told that a selection was confirmed in either case.
    pub fn confirm(&mut self, ix: Option<usize>) -> (signal: Signal)
        ensures
            final(self)@ == old(self)@.confirm(ix),
            signal == Signal::SelectedCompany,
    {
        if let Some(ix) = ix {
            self.selected_index = Some(ix);
        }
        Signal::SelectedCompany
    }

    /// Moves the selection. An index is stored, whatever its value, and the
    /// host is told to draw again; without an index nothing happens.
    pub fn set_selected_index(&mut self, ix: Option<usize>) -> (signal: Option<Signal>)
        ensures
            final(self)@ == old(self)@.set_selected_index(ix),
            signal == (if ix is Some {
                Some(Signal::Notify)
            } else {
                None
            }),
    {
        if let Some(ix) = ix {
            self.selected_index = Some(ix);
            Some(Signal::Notify)
        } else {
            None
        }
    }

    /// Builds the row at `ix` from a snapshot of its company, or nothing
    /// where the list has no such row.
    pub fn render_item(&self, ix: usize) -> (item: Option<CompanyListItem>)
        ensures
            list_item::view_of(item) == self@.render_item(ix),
    {
        let selected = match self.selected_index {
            Some(selected_index) => ix == selected_index,
            None => false,
        };
        if ix < self.companies.len() {
            Some(CompanyListItem::new(ix, self.companies[ix].clone(), ix, selected))
        } else {
            None
        }
    }

    /// A snapshot of the company that the selection points at, if it points
    /// at one.
    pub fn selected_company(&self) -> (selected: Option<Company>)
        ensures
            company::view_of(selected) == self@.selected_company(),
    {
        match self.selected_index {
            Some(ix) => {
                if ix < self.companies.len() {
                    Some(self.companies[ix].clone())
                } else {
                    None
                }
            },
            None => None,
        }
    }

    /// Gives every company a new price last done, drawn by `draw` from its
    /// previous close. Nothing else changes: not the rows' number or order,
    /// not a label or a previous close, not the selection.
    pub fn refresh<F: Fn(Binary64) -> Binary64>(&mut self, draw: &F)
        requires
            forall|i: int|
                0 <= i < old(self).companies@.len() ==> call_requires(
                    draw,
                    (#[trigger] old(self).companies@[i].prev_close,),
                ),
        ensures
            old(self)@.refreshed_by(draw, final(self)@),
    {
        let count = self.companies.len();
        let mut i: usize = 0;
        while i < count
            invariant
                i <= count,
                count == self.companies@.len(),
                count == old(self).companies@.len(),
                self.selected_index == old(self).selected_index,
                forall|j: int|
                    i <= j < count ==> #[trigger] self.companies@[j] == old(self).companies@[j],
                forall|j: int|
                    #![trigger self.companies@[j]]
                    0 <= j < i ==> {
                        &&& call_ensures(
                            draw,
                            (old(self).companies@[j].prev_close,),
                            self.companies@[j].last_done,
                        )
                        &&& self.companies@[j]@ == old(self).companies@[j]@.with_last_done(
                            self.companies@[j].last_done,
                        )
                    },
                forall|j: int|
                    0 <= j < count ==> call_requires(
                        draw,
                        (#[trigger] old(self).companies@[j].prev_close,),
                    ),
            decreases count - i,
        {
            self.companies[i].random_update(draw);
            i += 1;
        }
    }
}

/// Rendering a row beyond the last company yields nothing.
pub proof fn out_of_range_renders_nothing(delegate: DelegateView, ix: usize)
    requires
        ix >= delegate.items_count(),
    ensures
        delegate.render_item(ix) is None,
{
}

/// After an index is confirmed, it is the stored selection, also where it
/// points beyond the last row. The rows are as they were.
pub proof fn confirmed_index_is_stored(delegate: DelegateView, ix: usize)
    ensures
        delegate.confirm(Some(ix)).confirmed_index() == Some(ix),
        delegate.confirm(Some(ix)).companies == delegate.companies,
{
}

/// After the selection moved to an index, that index is the stored
/// selection, also where it points beyond the last row. The rows are as
/// they were.
pub proof fn selected_index_is_stored(delegate: DelegateView, ix: usize)
    ensures
        delegate.set_selected_index(Some(ix)).confirmed_index() == Some(ix),
        delegate.set_selected_index(Some(ix)).companies == delegate.companies,
{
}

/// Confirming nothing, or moving the selection to nothing, leaves the
/// delegate as it was: the selection is never cleared.
pub proof fn selecting_nothing_changes_nothing(delegate: DelegateView)
    ensures
        delegate.confirm(None) == delegate,
        delegate.set_selected_index(None) == delegate,
{
}

/// A confirmed index points at a row exactly when it is less than the
/// number of rows: the delegate does not check it.
pub proof fn confirmed_index_is_not_checked(delegate: DelegateView, ix: usize)
    ensures
        delegate.confirm(Some(ix)).selection_in_range() <==> ix < delegate.items_count(),
{
}

/// The row at the stored selection is flagged as selected, and no other
/// row is.
pub proof fn only_the_selection_is_flagged(delegate: DelegateView, ix: usize)
    requires
        ix < delegate.items_count(),
    ensures
        delegate.render_item(ix) is Some,
        delegate.render_item(ix)->0.selected <==> delegate.selected_index == Some(ix),
        delegate.render_item(ix)->0.ix == ix,
        delegate.render_item(ix)->0.company == delegate.companies[ix as int],
{
}

/// A selection that points at a row yields that row's company; one that is
/// absent or points beyond the last row yields none.
pub proof fn selected_company_follows_selection(delegate: DelegateView)
    ensures
        delegate.selected_company() is Some <==> delegate.selected_index is Some
            && delegate.selection_in_range(),
        delegate.selected_index matches Some(ix) ==> (ix < delegate.items_count()
            ==> delegate.selected_company() == Some(delegate.companies[ix as int])),
{
}

/// A refresh keeps every row in its place: the same rows exist after it,
/// each shows the company it showed, with a new price last done at most,
/// and the same row is flagged as selected.
pub proof fn refresh_keeps_rows_in_place<F: Fn(Binary64) -> Binary64>(
    before: DelegateView,
    draw: &F,
    after: DelegateView,
    ix: usize,
)
    requires
        before.refreshed_by(draw, after),
    ensures
        after.items_count() == before.items_count(),
        after.confirmed_index() == before.confirmed_index(),
        after.render_item(ix) is Some <==> before.render_item(ix) is Some,
        ix < before.items_count() ==> after.render_item(ix) == Some(
            ItemView {
                company: before.companies[ix as int].with_last_done(
                    after.companies[ix as int].last_done,
                ),
                ..before.render_item(ix)->0
            },
        ),
{
    if ix < before.items_count() {
        assert(after.companies[ix as int] == before.companies[ix as int].with_last_done(
            after.companies[ix as int].last_done,
        ));
    }
}

/// A refresh passes on what the draw promises: where every outcome of
/// `draw` stands in the relation `within` to the previous close it was
/// drawn from, every company's price last done stands in it to the
/// company's previous close after the refresh.
pub proof fn refresh_passes_on_what_the_draw_promises<F: Fn(Binary64) -> Binary64>(
    before: DelegateView,
    draw: &F,
    after: DelegateView,
    within: spec_fn(Binary64, Binary64) -> bool,
)
    requires
        before.refreshed_by(draw, after),
        forall|prev_close: Binary64, last_done: Binary64|
            call_ensures(draw, (prev_close,), last_done) ==> #[trigger] within(
                prev_close,
                last_done,
            ),
    ensures
        forall|i: int|
            0 <= i < after.items_count() ==> within(
                before.companies[i].prev_close,
                (#[trigger] after.companies[i]).last_done,
            ),
        forall|i: int|
            0 <= i < after.items_count() ==> (#[trigger] after.companies[i]).prev_close
                == before.companies[i].prev_close,
{
}

} // verus!
