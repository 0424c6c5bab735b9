//! Sections, terms and sales rows.

use crate::domain::calendar::{Date, DateTime, Day};
use crate::domain::identifier::{fresh_id, is_random_id, Id};
use crate::domain::value_object::Money;
use vstd::prelude::*;

verus! {

/// The kind of an organisational unit.
#[derive(Debug, Clone, Copy, PartialEq, Eq, Structural)]
pub enum SectionType {
    Department,
    Division,
    Section,
}

/// An organisational unit that sales are attributed to. Its parent, if any,
/// places it in a hierarchy.
#[derive(Debug)]
pub struct Section {
    pub id: Id,
    pub name: String,
    pub section_type: SectionType,
    pub parent_id: Option<Id>,
}

impl Section {
    /// A section under a fresh identifier.
    pub fn new(name: String, section_type: SectionType, parent_id: Option<Id>) -> (s: Section)
        ensures
            s == (Section { id: s.id, name, section_type, parent_id }),
            is_random_id(s.id),
    {
        Section { id: fresh_id(), name, section_type, parent_id }
    }
}

impl Clone for Section {
    fn clone(&self) -> (s: Section)
        ensures
            s == *self,
    {
        Section {
            id: self.id,
            name: self.name.clone(),
            section_type: self.section_type,
            parent_id: self.parent_id,
        }
    }
}

/// Whether a term still takes new sales.
#[derive(Debug, Clone, Copy, PartialEq, Eq, Structural)]
pub enum TermStatus {
    Open,
    Closed,
}

/// A fiscal window of dates, both ends included.
#[derive(Debug)]
pub struct Term {
    pub id: Id,
    pub start_date: Date,
    pub end_date: Date,
    pub status: TermStatus,
}

impl Term {
    /// `day` lies within the window, the first and the last day included.
    pub open spec fn covers(self, day: Day) -> bool {
        self.start_date@.at_most(day) && day.at_most(self.end_date@)
    }

    /// The same term, closed.
    pub open spec fn closed(self) -> Term {
        Term { status: TermStatus::Closed, ..self }
    }

    /// An open term under a fresh identifier.
    pub fn new(start_date: Date, end_date: Date) -> (t: Term)
        ensures
            t == (Term { id: t.id, start_date, end_date, status: TermStatus::Open }),
            is_random_id(t.id),
    {
        Term { id: fresh_id(), start_date, end_date, status: TermStatus::Open }
    }

    /// Closes the term. Closing a closed term changes nothing.
    pub fn close(&mut self)
        ensures
            *final(self) == old(self).closed(),
    {
        self.status = TermStatus::Closed;
    }

    /// Whether `date` lies within the window.
    pub fn includes(&self, date: &Date) -> (b: bool)
        ensures
            b == self.covers(date@),
    {
        !date.is_before(&self.start_date) && !date.is_after(&self.end_date)
    }
}

impl Clone for Term {
    fn clone(&self) -> (t: Term)
        ensures
            t == *self,
    {
        Term {
            id: self.id,
            start_date: self.start_date,
            end_date: self.end_date,
            status: self.status,
        }
    }
}

/// What a sales row records.
#[derive(Debug, Clone, Copy, PartialEq, Eq, Structural)]
pub enum SalesType {
    /// A sale as it was first registered.
    Normal,
    /// One leg of a transfer of a sale to another section.
    Adjustment,
    /// One row of a restatement or of a rebalance.
    Correction,
}

/// One row of the ledger.
#[derive(Debug)]
pub struct Sales {
    pub id: Id,
    pub amount: Money,
    pub date: DateTime,
    pub section_id: Id,
    pub term_id: Id,
    pub sales_type: SalesType,
    /// The row that this one offsets or restates.
    pub related_sales_id: Option<Id>,
}

impl Sales {
    /// A row under a fresh identifier, related to no other row.
    pub fn new(
        amount: Money,
        date: DateTime,
        section_id: Id,
        term_id: Id,
        sales_type: SalesType,
    ) -> (s: Sales)
        ensures
            s == (Sales {
                id: s.id,
                amount,
                date,
                section_id,
                term_id,
                sales_type,
                related_sales_id: None,
            }),
            is_random_id(s.id),
    {
        Sales {
            id: fresh_id(),
            amount,
            date,
            section_id,
            term_id,
            sales_type,
            related_sales_id: None,
        }
    }
}

impl Clone for Sales {
    fn clone(&self) -> (s: Sales)
        ensures
            s == *self,
    {
        Sales {
            id: self.id,
            amount: self.amount,
            date: self.date,
            section_id: self.section_id,
            term_id: self.term_id,
            sales_type: self.sales_type,
            related_sales_id: self.related_sales_id,
        }
    }
}

} // verus!
