//! The entity behind one row of the list: a company with two quotes.

use crate::binary64::Binary64;
use fake::Fake;
use vstd::prelude::*;

verus! {

/// A listed company: two display labels that never change, the price last
/// done and the previous close.
#[derive(Debug, PartialEq)]
pub struct Company {
    pub name: String,
    pub industry: String,
    pub last_done: Binary64,
    pub prev_close: Binary64,
}

/// What a [`Company`] is, mathematically: its labels as character sequences
/// and its two quotes.
pub struct CompanyView {
    pub name: Seq<char>,
    pub industry: Seq<char>,
    pub last_done: Binary64,
    pub prev_close: Binary64,
}

impl CompanyView {
    /// The same company with another price last done.
    pub open spec fn with_last_done(self, last_done: Binary64) -> CompanyView {
        CompanyView { last_done, ..self }
    }
}

impl View for Company {
    type V = CompanyView;

    open spec fn view(&self) -> CompanyView {
        CompanyView {
            name: self.name@,
            industry: self.industry@,
            last_done: self.last_done,
            prev_close: self.prev_close,
        }
    }
}

impl Clone for Company {
    /// A snapshot: the copy has the same labels and the same quotes.
    fn clone(&self) -> (copy: Self)
        ensures
            copy@ == self@,
    {
        Company {
            name: self.name.clone(),
            industry: self.industry.clone(),
            last_done: self.last_done,
            prev_close: self.prev_close,
        }
    }
}

/// The views of a sequence of companies, in the same order.
pub open spec fn views(companies: Seq<Company>) -> Seq<CompanyView> {
    Seq::new(companies.len(), |i: int| companies[i]@)
}

/// The view of a company that may be absent.
pub open spec fn view_of(company: Option<Company>) -> Option<CompanyView> {
    match company {
        Some(company) => Some(company@),
        None => None,
    }
}

impl Company {
    /// A company with the given labels and quotes.
    pub fn new(name: String, industry: String, last_done: Binary64, prev_close: Binary64) -> (company:
        Self)
        ensures
            company@ == (CompanyView { name: name@, industry: industry@, last_done, prev_close }),
    {
        Company { name, industry, last_done, prev_close }
    }

    /// Replaces the price last done by what `draw` makes of the previous
    /// close. Labels and previous close stay as they are.
    ///
    /// `draw` is where chance and floating-point arithmetic live; whatever it
    /// hands back is stored as it comes.
    pub fn random_update<F: Fn(Binary64) -> Binary64>(&mut self, draw: &F)
        requires
            call_requires(draw, (old(self).prev_close,)),
        ensures
            call_ensures(draw, (old(self).prev_close,), final(self).last_done),
            final(self)@ == old(self)@.with_last_done(final(self).last_done),
    {
        self.last_done = draw(self.prev_close);
    }
}

/// Draws a company name from `fake`'s English company-name faker
/// (`fake::faker::company::en::CompanyName`). The name is random: nothing is
/// claimed of it.
#[verifier::external_body]
fn fake_company_name() -> String {
    fake::faker::company::en::CompanyName().fake()
}

/// Draws an industry from `fake`'s English industry faker
/// (`fake::faker::company::en::Industry`). The label is random: nothing is
/// claimed of it.
#[verifier::external_body]
fn fake_industry() -> String {
    fake::faker::company::en::Industry().fake()
}

/// A company with random labels and the given quotes.
pub fn random_company(last_done: Binary64, prev_close: Binary64) -> (company: Company)
    ensures
        company.last_done == last_done,
        company.prev_close == prev_close,
{
    Company::new(fake_company_name(), fake_industry(), last_done, prev_close)
}

/// So many companies with random labels, each with quotes drawn by
/// `quotes`: the price last done first, the previous close second.
pub fn random_companies<F: Fn() -> (Binary64, Binary64)>(count: usize, quotes: &F) -> (companies:
    Vec<Company>)
    requires
        call_requires(quotes, ()),
    ensures
        companies@.len() == count,
        forall|i: int|
            0 <= i < count ==> call_ensures(
                quotes,
                (),
                (#[trigger] companies@[i].last_done, companies@[i].prev_close),
            ),
{
    let mut companies: Vec<Company> = Vec::new();
    let mut i: usize = 0;
    while i < count
        invariant
            i <= count,
            companies@.len() == i,
            call_requires(quotes, ()),
            forall|j: int|
                0 <= j < i ==> call_ensures(
                    quotes,
                    (),
                    (#[trigger] companies@[j].last_done, companies@[j].prev_close),
                ),
        decreases count - i,
    {
        let (last_done, prev_close) = quotes();
        companies.push(random_company(last_done, prev_close));
        i += 1;
    }
    companies
}

} // verus!
