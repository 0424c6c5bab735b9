//! The storage interfaces that the accounting service works against.
//!
//! Each store is seen as a map from identifier to record. A write either
//! takes effect as a whole or leaves the store as it was; a read hands out a
//! copy of what is stored.

use crate::domain::entity::{Sales, Section, Term, TermStatus};
use crate::domain::identifier::Id;
use vstd::prelude::*;

verus! {

/// `keys` names, without repetition, exactly the rows of `rows` that `wanted`
/// accepts, and `found` holds the rows under those keys, in the same order.
pub open spec fn selects(
    rows: Map<Id, Sales>,
    wanted: spec_fn(Sales) -> bool,
    keys: Seq<Id>,
    found: Seq<Sales>,
) -> bool {
    &&& keys.no_duplicates()
    &&& keys.len() == found.len()
    &&& forall|i: int|
        0 <= i < keys.len() ==> rows.contains_key(#[trigger] keys[i]) && rows[keys[i]] == found[i]
            && wanted(found[i])
    &&& forall|k: Id| #[trigger] rows.contains_key(k) && wanted(rows[k]) ==> keys.contains(k)
}

/// `found` holds the rows of `rows` that `wanted` accepts: each stored row
/// once, in no particular order.
pub open spec fn is_selection(
    rows: Map<Id, Sales>,
    wanted: spec_fn(Sales) -> bool,
    found: Seq<Sales>,
) -> bool {
    exists|keys: Seq<Id>| #[trigger] selects(rows, wanted, keys, found)
}

/// The rows of the term `term_id`; where `section_id` is given, only those of
/// that section.
pub open spec fn within(section_id: Option<Id>, term_id: Id) -> spec_fn(Sales) -> bool {
    |s: Sales|
        s.term_id == term_id && match section_id {
            Some(id) => s.section_id == id,
            None => true,
        }
}

/// No term of `terms` is open.
pub open spec fn no_open_term(terms: Map<Id, Term>) -> bool {
    forall|id: Id| #[trigger] terms.contains_key(id) ==> terms[id].status != TermStatus::Open
}

/// `term` is one of the open terms of `terms`.
pub open spec fn is_open_term_of(terms: Map<Id, Term>, term: Term) -> bool {
    terms.contains_value(term) && term.status == TermStatus::Open
}

/// A store of sections.
pub trait SectionRepository {
    /// The sections held, by the identifier each was saved under. A store
    /// that does not say what it holds is taken to hold some map that depends
    /// on the store alone.
    open spec fn sections(&self) -> Map<Id, Section> {
        arbitrary::<spec_fn(&Self) -> Map<Id, Section>>()(self)
    }

    /// Whether this store accepts every write. A store that does not say so
    /// is taken to refuse some.
    open spec fn never_refuses(&self) -> bool {
        false
    }

    /// Stores `section` under its identifier, in place of what was there.
    fn save(&mut self, section: Section) -> (r: Result<(), String>)
        ensures
            r is Ok ==> final(self).sections() == old(self).sections().insert(section.id, section),
            r is Err ==> final(self).sections() == old(self).sections()
                && !old(self).never_refuses(),
            final(self).never_refuses() == old(self).never_refuses(),
    ;

    fn find_by_id(&self, id: &Id) -> (r: Option<Section>)
        ensures
            r == self.sections().get(*id),
    ;
}

/// A store of terms.
pub trait TermRepository {
    /// The terms held, by the identifier each was saved under. A store that
    /// does not say what it holds is taken to hold some map that depends on
    /// the store alone.
    open spec fn terms(&self) -> Map<Id, Term> {
        arbitrary::<spec_fn(&Self) -> Map<Id, Term>>()(self)
    }

    /// Whether this store accepts every write. A store that does not say so
    /// is taken to refuse some.
    open spec fn never_refuses(&self) -> bool {
        false
    }

    /// Stores `term` under its identifier, in place of what was there.
    fn save(&mut self, term: Term) -> (r: Result<(), String>)
        ensures
            r is Ok ==> final(self).terms() == old(self).terms().insert(term.id, term),
            r is Err ==> final(self).terms() == old(self).terms() && !old(self).never_refuses(),
            final(self).never_refuses() == old(self).never_refuses(),
    ;

    fn find_by_id(&self, id: &Id) -> (r: Option<Term>)
        ensures
            r == self.terms().get(*id),
    ;

    /// Some open term, whichever the store comes upon, or `None` where none is
    /// open.
    fn find_open_term(&self) -> (r: Option<Term>)
        ensures
            match r {
                Some(term) => is_open_term_of(self.terms(), term),
                None => no_open_term(self.terms()),
            },
    ;
}

/// A store of sales rows.
pub trait SalesRepository {
    /// The rows held, by the identifier each was saved under. A store that
    /// does not say what it holds is taken to hold some map that depends on
    /// the store alone.
    open spec fn rows(&self) -> Map<Id, Sales> {
        arbitrary::<spec_fn(&Self) -> Map<Id, Sales>>()(self)
    }

    /// Whether this store accepts every write. A store that does not say so
    /// is taken to refuse some.
    open spec fn never_refuses(&self) -> bool {
        false
    }

    /// Stores `sales` under its identifier, in place of what was there.
    fn save(&mut self, sales: Sales) -> (r: Result<(), String>)
        ensures
            r is Ok ==> final(self).rows() == old(self).rows().insert(sales.id, sales),
            r is Err ==> final(self).rows() == old(self).rows() && !old(self).never_refuses(),
            final(self).never_refuses() == old(self).never_refuses(),
    ;

    fn find_by_id(&self, id: &Id) -> (r: Option<Sales>)
        ensures
            r == self.rows().get(*id),
    ;

    /// The rows of the term `term_id`.
    fn find_by_term(&self, term_id: &Id) -> (r: Vec<Sales>)
        ensures
            is_selection(self.rows(), within(None, *term_id), r@),
    ;

    /// The rows of the section `section_id` within the term `term_id`.
    fn find_by_section_and_term(&self, section_id: &Id, term_id: &Id) -> (r: Vec<Sales>)
        ensures
            is_selection(self.rows(), within(Some(*section_id), *term_id), r@),
    ;
}

} // verus!
