//! The host of the company list, and the loop that refreshes it.
//!
//! The host caches the company that was last confirmed in the list. The
//! list and its delegate belong to the container that shows them, so the
//! host is handed the delegate where it needs it.
//!
//! The refresh loop is a small state machine: its owner sleeps, re-enters
//! the host and stops as the machine says, and reports back what happened.

use crate::binary64::Binary64;
use crate::company;
use crate::company::{Company, CompanyView};
use crate::delegate::{CompanyListDelegate, DelegateView, Signal};
use vstd::prelude::*;

verus! {

/// The time between two refreshes, in milliseconds.
pub const REFRESH_PERIOD_MILLIS: u64 = 500;

/// The number of companies that the story lists.
pub const COMPANY_COUNT: usize = 1000;

/// The host view of the company list: what it keeps beside the list
/// itself, which the list's container owns.
#[derive(Debug, PartialEq)]
pub struct ListStory {
    /// A snapshot of the company that was last confirmed.
    pub selected_company: Option<Company>,
}

/// What a [`ListStory`] is, mathematically.
pub struct StoryView {
    pub selected_company: Option<CompanyView>,
}

impl StoryView {
    /// The host after it took note of a confirmed selection in
    /// `company_list`: the company that the selection points at is cached;
    /// where it points at none, the cache keeps what it had.
    pub open spec fn note_selection(self, company_list: DelegateView) -> StoryView {
        match company_list.selected_company() {
            Some(company) => StoryView { selected_company: Some(company) },
            None => self,
        }
    }
}

impl View for ListStory {
    type V = StoryView;

    open spec fn view(&self) -> StoryView {
        StoryView { selected_company: company::view_of(self.selected_company) }
    }
}

impl ListStory {
    /// A host that has nothing confirmed yet.
    pub fn new() -> (story: Self)
        ensures
            story@.selected_company is None,
    {
        ListStory { selected_company: None }
    }

    /// The delegate that the story starts with: `companies` in their
    /// order, the first row selected.
    pub fn company_list(companies: Vec<Company>) -> (company_list: CompanyListDelegate)
        ensures
            company_list@ == (DelegateView {
                companies: company::views(companies@),
                selected_index: Some(0),
            }),
    {
        CompanyListDelegate::new(companies, Some(0))
    }

    /// Takes note of a confirmed selection: caches a snapshot of the
    /// company that the selection of `company_list` points at. Where it
    /// points at none, the cache keeps what it had.
    pub fn selected_company(&mut self, company_list: &CompanyListDelegate)
        ensures
            final(self)@ == old(self)@.note_selection(company_list@),
    {
        if let Some(company) = company_list.selected_company() {
            self.selected_company = Some(company);
        }
    }

    /// One refresh: every company of `company_list` gets a new price last
    /// done, drawn by `draw` from its previous close, and the view is to
    /// be drawn again. The host itself is not touched: the cached company
    /// is a snapshot and keeps its price.
    pub fn refresh<F: Fn(Binary64) -> Binary64>(
        &self,
        company_list: &mut CompanyListDelegate,
        draw: &F,
    ) -> (signal: Signal)
        requires
            forall|i: int|
                0 <= i < old(company_list).companies@.len() ==> call_requires(
                    draw,
                    (#[trigger] old(company_list).companies@[i].prev_close,),
                ),
        ensures
            old(company_list)@.refreshed_by(draw, final(company_list)@),
            signal == Signal::Notify,
    {
        company_list.refresh(draw);
        Signal::Notify
    }
}

/// Once an index that points at a row is confirmed and the host has taken
/// note, the cache holds that row's company.
pub proof fn confirmed_company_is_cached(story: StoryView, company_list: DelegateView, ix: usize)
    requires
        ix < company_list.items_count(),
    ensures
        story.note_selection(company_list.confirm(Some(ix))).selected_company == Some(
            company_list.companies[ix as int],
        ),
{
}

/// Where the confirmed index points beyond the last row, taking note
/// changes nothing: the cache keeps what it had.
pub proof fn stray_confirmation_keeps_the_cache(
    story: StoryView,
    company_list: DelegateView,
    ix: usize,
)
    requires
        ix >= company_list.items_count(),
    ensures
        story.note_selection(company_list.confirm(Some(ix))) == story,
{
}

/// Where the refresh loop stands.
#[derive(Clone, Copy, Debug, PartialEq, Eq, Structural)]
pub enum RefreshState {
    /// Between two refreshes: the timer runs.
    Sleeping,
    /// The timer fired: a refresh is due.
    Due,
    /// The host is gone. The loop has ended and does not start again.
    Cancelled,
}

/// What happened since the loop was last asked.
#[derive(Clone, Copy, Debug, PartialEq, Eq, Structural)]
pub enum RefreshEvent {
    /// The timer fired.
    TimerFired,
    /// The host was entered and refreshed.
    Refreshed,
    /// The host was torn down, or could not be entered any more.
    ViewDropped,
}

/// What the owner of the loop is to do next.
#[derive(Clone, Copy, Debug, PartialEq, Eq, Structural)]
pub enum RefreshAction {
    /// Sleep for so many milliseconds, then report `TimerFired`.
    Sleep { millis: u64 },
    /// Enter the host and refresh it, then report `Refreshed`; report
    /// `ViewDropped` where the host is gone.
    Refresh,
    /// Leave the loop.
    Exit,
}

impl RefreshState {
    /// The state after `event`. The loss of the host cancels the loop from
    /// any state, and a cancelled loop stays cancelled. The timer takes a
    /// sleeping loop to a due refresh, and the refresh takes it back to
    /// sleep. An event that the state does not wait for is ignored.
    pub open spec fn after(self, event: RefreshEvent) -> RefreshState {
        match (self, event) {
            (RefreshState::Cancelled, _) => RefreshState::Cancelled,
            (_, RefreshEvent::ViewDropped) => RefreshState::Cancelled,
            (RefreshState::Sleeping, RefreshEvent::TimerFired) => RefreshState::Due,
            (RefreshState::Due, RefreshEvent::Refreshed) => RefreshState::Sleeping,
            (state, _) => state,
        }
    }

    /// What a loop in this state asks of its owner.
    pub open spec fn action_spec(self) -> RefreshAction {
        match self {
            RefreshState::Sleeping => RefreshAction::Sleep { millis: REFRESH_PERIOD_MILLIS },
            RefreshState::Due => RefreshAction::Refresh,
            RefreshState::Cancelled => RefreshAction::Exit,
        }
    }

    /// A loop that has just been started: it sleeps first.
    pub fn start() -> (state: RefreshState)
        ensures
            state == RefreshState::Sleeping,
    {
        RefreshState::Sleeping
    }

    /// What a loop in this state asks of its owner.
    #[verifier::when_used_as_spec(action_spec)]
    pub fn action(self) -> (action: RefreshAction)
        ensures
            action == self.action_spec(),
    {
        match self {
            RefreshState::Sleeping => RefreshAction::Sleep { millis: REFRESH_PERIOD_MILLIS },
            RefreshState::Due => RefreshAction::Refresh,
            RefreshState::Cancelled => RefreshAction::Exit,
        }
    }

    /// Takes the loop through `event`: the state that follows, and what its
    /// owner is to do next.
    pub fn step(self, event: RefreshEvent) -> (next: (RefreshState, RefreshAction))
        ensures
            next.0 == self.after(event),
            next.1 == self.after(event).action_spec(),
    {
        let state = match self {
            RefreshState::Cancelled => RefreshState::Cancelled,
            RefreshState::Sleeping => match event {
                RefreshEvent::ViewDropped => RefreshState::Cancelled,
                RefreshEvent::TimerFired => RefreshState::Due,
                RefreshEvent::Refreshed => RefreshState::Sleeping,
            },
            RefreshState::Due => match event {
                RefreshEvent::ViewDropped => RefreshState::Cancelled,
                RefreshEvent::TimerFired => RefreshState::Due,
                RefreshEvent::Refreshed => RefreshState::Sleeping,
            },
        };
        (state, state.action())
    }
}

/// A cancelled loop stays cancelled, whatever happens, and asks only to be
/// left.
pub proof fn cancellation_is_final(event: RefreshEvent)
    ensures
        RefreshState::Cancelled.after(event) == RefreshState::Cancelled,
        RefreshState::Cancelled.action_spec() == RefreshAction::Exit,
{
}

/// The loss of the host cancels the loop from any state.
pub proof fn lost_host_cancels(state: RefreshState)
    ensures
        state.after(RefreshEvent::ViewDropped) == RefreshState::Cancelled,
{
}

/// A loop becomes due only by the timer firing while it sleeps, so every
/// refresh comes after a full period of sleep; and once the host was
/// refreshed, the loop sleeps a full period again.
pub proof fn refresh_follows_the_timer(state: RefreshState, event: RefreshEvent)
    ensures
        state != RefreshState::Due && state.after(event) == RefreshState::Due ==> state
            == RefreshState::Sleeping && event == RefreshEvent::TimerFired,
        state.after(event).action_spec() == RefreshAction::Refresh <==> state.after(event)
            == RefreshState::Due,
        RefreshState::Due.after(RefreshEvent::Refreshed).action_spec() == (RefreshAction::Sleep {
            millis: REFRESH_PERIOD_MILLIS,
        }),
{
}

} // verus!
