//! The accounting service: the commands that validate and append to the
//! ledger.
//!
//! Every command first reads what it needs from the stores and judges the
//! request; nothing is written before the request is accepted. A command that
//! appends two rows writes them one after the other, so a store that refuses
//! the second write leaves the first row behind.

use crate::domain::calendar::DateTime;
use crate::domain::entity::{Sales, SalesType, Section, Term};
use crate::domain::error::{AccountingError, Missing};
use crate::domain::identifier::{is_random_id, Id};
use crate::domain::ledger::{
    check_registration, check_window, correction_rows, normal_row, rebalance_rows,
    registration_check, transfer_rows, window_check,
};
use crate::domain::repository::{
    is_open_term_of, no_open_term, SalesRepository, SectionRepository, TermRepository,
};
use crate::domain::value_object::Money;
use core::ops::Neg;
use vstd::prelude::*;

verus! {

/// How the sales rows stand after a sale was offered for registration on the
/// open term `term`, and what the caller was told. Only a store that is not
/// `reliable` can have refused the write.
pub open spec fn registered(
    before: Map<Id, Sales>,
    after: Map<Id, Sales>,
    reliable: bool,
    term: Term,
    amount: Money,
    date: DateTime,
    section_id: Id,
    outcome: Result<Id, AccountingError>,
) -> bool {
    match registration_check(term, amount, date) {
        Err(refusal) => outcome == Err::<Id, AccountingError>(refusal) && after == before,
        Ok(()) => match outcome {
            Ok(id) => is_random_id(id) && after == before.insert(
                id,
                normal_row(id, amount, date, section_id, term.id),
            ),
            Err(e) => e is Storage && !reliable && after == before,
        },
    }
}

/// How the sales rows stand after the rows of `pair` were to be written, the
/// first before the second, under fresh identifiers: both were written, or the
/// store refused one of them and the rows written before it stay.
pub open spec fn wrote_pair(
    before: Map<Id, Sales>,
    after: Map<Id, Sales>,
    pair: (Sales, Sales),
    done: bool,
) -> bool {
    if done {
        &&& is_random_id(pair.0.id)
        &&& is_random_id(pair.1.id)
        &&& after == before.insert(pair.0.id, pair.0).insert(pair.1.id, pair.1)
    } else {
        ||| after == before
        ||| is_random_id(pair.0.id) && after == before.insert(pair.0.id, pair.0)
    }
}

/// The outcome of a transfer that was accepted: see `wrote_pair`. On success
/// the caller gets the identifier of the positive leg. Only a store that is
/// not `reliable` can have refused a write.
pub open spec fn transferred(
    before: Map<Id, Sales>,
    after: Map<Id, Sales>,
    reliable: bool,
    legs: (Sales, Sales),
    outcome: Result<Id, AccountingError>,
) -> bool {
    match outcome {
        Ok(id) => id == legs.1.id && wrote_pair(before, after, legs, true),
        Err(e) => e is Storage && !reliable && wrote_pair(before, after, legs, false),
    }
}

/// The outcome of a restatement or a rebalance that was accepted: see
/// `wrote_pair`. Only a store that is not `reliable` can have refused a write.
pub open spec fn corrected(
    before: Map<Id, Sales>,
    after: Map<Id, Sales>,
    reliable: bool,
    rows: (Sales, Sales),
    outcome: Result<(), AccountingError>,
) -> bool {
    match outcome {
        Ok(()) => wrote_pair(before, after, rows, true),
        Err(e) => e is Storage && !reliable && wrote_pair(before, after, rows, false),
    }
}

/// The ledger is append-only. Where the identifier drawn for a registered
/// sale was not in use, every row stored before is stored after, as it was.
pub proof fn lemma_registration_keeps_history(
    before: Map<Id, Sales>,
    after: Map<Id, Sales>,
    reliable: bool,
    term: Term,
    amount: Money,
    date: DateTime,
    section_id: Id,
    outcome: Result<Id, AccountingError>,
)
    requires
        registered(before, after, reliable, term, amount, date, section_id, outcome),
        outcome matches Ok(id) ==> !before.contains_key(id),
    ensures
        before.submap_of(after),
{
}

/// The ledger is append-only. Where the identifiers drawn for a pair of rows
/// were not in use, every row stored before is stored after, as it was,
/// whether both rows were written or the store refused one of them.
pub proof fn lemma_pair_keeps_history(
    before: Map<Id, Sales>,
    after: Map<Id, Sales>,
    pair: (Sales, Sales),
    done: bool,
)
    requires
        wrote_pair(before, after, pair, done),
        !before.contains_key(pair.0.id),
        !before.contains_key(pair.1.id),
    ensures
        before.submap_of(after),
{
}

/// The accounting service over a store of sections, a store of terms and a
/// store of sales rows.
pub struct AccountingService<S: SectionRepository, T: TermRepository, L: SalesRepository> {
    section_repo: S,
    term_repo: T,
    sales_repo: L,
}

impl<S: SectionRepository, T: TermRepository, L: SalesRepository> AccountingService<S, T, L> {
    /// The sections in the section store.
    pub closed spec fn sections(&self) -> Map<Id, Section> {
        self.section_repo.sections()
    }

    /// The terms in the term store.
    pub closed spec fn terms(&self) -> Map<Id, Term> {
        self.term_repo.terms()
    }

    /// The rows in the sales store.
    pub closed spec fn rows(&self) -> Map<Id, Sales> {
        self.sales_repo.rows()
    }

    /// Whether none of the three stores ever refuses a write.
    pub closed spec fn reliable(&self) -> bool {
        self.section_repo.never_refuses() && self.term_repo.never_refuses()
            && self.sales_repo.never_refuses()
    }

    pub fn new(section_repo: S, term_repo: T, sales_repo: L) -> (service: Self)
        ensures
            service.sections() == section_repo.sections(),
            service.terms() == term_repo.terms(),
            service.rows() == sales_repo.rows(),
            service.reliable() == (section_repo.never_refuses() && term_repo.never_refuses()
                && sales_repo.never_refuses()),
    {
        Self { section_repo, term_repo, sales_repo }
    }

    /// The section store, to read from.
    pub fn section_repo(&self) -> (repo: &S)
        ensures
            repo.sections() == self.sections(),
    {
        &self.section_repo
    }

    /// The term store, to read from.
    pub fn term_repo(&self) -> (repo: &T)
        ensures
            repo.terms() == self.terms(),
    {
        &self.term_repo
    }

    /// The sales store, to read from.
    pub fn sales_repo(&self) -> (repo: &L)
        ensures
            repo.rows() == self.rows(),
    {
        &self.sales_repo
    }

    /// Stores `section` as it is given and returns its identifier. Nothing is
    /// checked: neither that the identifier is new nor that the parent exists.
    pub fn create_section(&mut self, section: Section) -> (r: Result<Id, AccountingError>)
        ensures
            final(self).terms() == old(self).terms(),
            final(self).rows() == old(self).rows(),
            final(self).reliable() == old(self).reliable(),
            match r {
                Ok(id) => id == section.id && final(self).sections() == old(self).sections().insert(
                    section.id,
                    section,
                ),
                Err(e) => e is Storage && !old(self).reliable() && final(self).sections()
                    == old(self).sections(),
            },
    {
        let id = section.id;
        match self.section_repo.save(section) {
            Ok(()) => Ok(id),
            Err(e) => Err(AccountingError::Storage(e)),
        }
    }

    /// Stores `term` as it is given and returns its identifier. Nothing is
    /// checked: several terms may be open at once, and windows may overlap.
    pub fn create_term(&mut self, term: Term) -> (r: Result<Id, AccountingError>)
        ensures
            final(self).sections() == old(self).sections(),
            final(self).rows() == old(self).rows(),
            final(self).reliable() == old(self).reliable(),
            match r {
                Ok(id) => id == term.id && final(self).terms() == old(self).terms().insert(
                    term.id,
                    term,
                ),
                Err(e) => e is Storage && !old(self).reliable() && final(self).terms()
                    == old(self).terms(),
            },
    {
        let id = term.id;
        match self.term_repo.save(term) {
            Ok(()) => Ok(id),
            Err(e) => Err(AccountingError::Storage(e)),
        }
    }

    /// Registers a sale of `amount` at the section `section_id`, on an open
    /// term, and returns the identifier of the new row.
    ///
    /// The section must exist, or the sale is refused before anything else is
    /// looked at. Then a term must be open; where several are, the store
    /// picks one. The date must lie in that term's window and the amount must
    /// not be zero.
    pub fn register_sales(&mut self, amount: Money, date: DateTime, section_id: Id) -> (r: Result<
        Id,
        AccountingError,
    >)
        ensures
            final(self).sections() == old(self).sections(),
            final(self).terms() == old(self).terms(),
            final(self).reliable() == old(self).reliable(),
            !old(self).sections().contains_key(section_id) ==> r == Err::<Id, AccountingError>(
                AccountingError::NotFound(Missing::Section),
            ) && final(self).rows() == old(self).rows(),
            old(self).sections().contains_key(section_id) && no_open_term(old(self).terms()) ==> r
                == Err::<Id, AccountingError>(AccountingError::NoOpenTerm) && final(self).rows()
                == old(self).rows(),
            old(self).sections().contains_key(section_id) && !no_open_term(old(self).terms())
                ==> exists|term: Term|
                is_open_term_of(old(self).terms(), term) && #[trigger] registered(
                    old(self).rows(),
                    final(self).rows(),
                    old(self).reliable(),
                    term,
                    amount,
                    date,
                    section_id,
                    r,
                ),
    {
        if self.section_repo.find_by_id(&section_id).is_none() {
            return Err(AccountingError::NotFound(Missing::Section));
        }
        let term = match self.term_repo.find_open_term() {
            Some(term) => term,
            None => {
                return Err(AccountingError::NoOpenTerm);
            },
        };
        assert(!no_open_term(self.terms())) by {
            let id = choose|id: Id| self.terms().contains_key(id) && self.terms()[id] == term;
            assert(self.terms().contains_key(id));
        }
        match check_registration(&term, &amount, &date) {
            Ok(()) => {},
            Err(refusal) => {
                assert(registered(
                    old(self).rows(),
                    self.rows(),
                    old(self).reliable(),
                    term,
                    amount,
                    date,
                    section_id,
                    Err(refusal),
                ));
                return Err(refusal);
            },
        }
        let sales = Sales::new(amount, date, section_id, term.id, SalesType::Normal);
        let id = sales.id;
        let r = match self.sales_repo.save(sales) {
            Ok(()) => Ok(id),
            Err(e) => Err(AccountingError::Storage(e)),
        };
        assert(registered(
            old(self).rows(),
            self.rows(),
            old(self).reliable(),
            term,
            amount,
            date,
            section_id,
            r,
        ));
        r
    }

    /// Moves the sale `sales_id` to the section `target_section_id` by
    /// appending two adjustments: the sale's amount negated at its own
    /// section, and the amount itself at the target, both in the sale's term
    /// and both pointing back at the sale. The sale itself is left alone.
    /// Returns the identifier of the positive leg.
    pub fn transform_sales(&mut self, sales_id: Id, target_section_id: Id, date: DateTime) -> (r:
        Result<Id, AccountingError>)
        ensures
            final(self).sections() == old(self).sections(),
            final(self).terms() == old(self).terms(),
            final(self).reliable() == old(self).reliable(),
            match old(self).rows().get(sales_id) {
                None => r == Err::<Id, AccountingError>(AccountingError::NotFound(Missing::Sales))
                    && final(self).rows() == old(self).rows(),
                Some(original) => if !old(self).sections().contains_key(target_section_id) {
                    r == Err::<Id, AccountingError>(
                        AccountingError::NotFound(Missing::TargetSection),
                    ) && final(self).rows() == old(self).rows()
                } else {
                    exists|negative_id: Id, positive_id: Id|
                        transferred(
                            old(self).rows(),
                            final(self).rows(),
                            old(self).reliable(),
                            #[trigger] transfer_rows(
                                original,
                                sales_id,
                                target_section_id,
                                date,
                                negative_id,
                                positive_id,
                            ),
                            r,
                        )
                },
            },
    {
        let original_sales = match self.sales_repo.find_by_id(&sales_id) {
            Some(sales) => sales,
            None => {
                return Err(AccountingError::NotFound(Missing::Sales));
            },
        };
        if self.section_repo.find_by_id(&target_section_id).is_none() {
            return Err(AccountingError::NotFound(Missing::TargetSection));
        }
        let mut negative_sales = Sales::new(
            original_sales.amount.neg(),
            date,
            original_sales.section_id,
            original_sales.term_id,
            SalesType::Adjustment,
        );
        negative_sales.related_sales_id = Some(sales_id);
        let ghost negative = negative_sales;
        match self.sales_repo.save(negative_sales) {
            Ok(()) => {},
            Err(e) => {
                let r = Err(AccountingError::Storage(e));
                assert(transferred(
                    old(self).rows(),
                    self.rows(),
                    old(self).reliable(),
                    transfer_rows(
                        original_sales,
                        sales_id,
                        target_section_id,
                        date,
                        negative.id,
                        negative.id,
                    ),
                    r,
                ));
                return r;
            },
        }
        let mut positive_sales = Sales::new(
            original_sales.amount,
            date,
            target_section_id,
            original_sales.term_id,
            SalesType::Adjustment,
        );
        positive_sales.related_sales_id = Some(sales_id);
        let new_id = positive_sales.id;
        let ghost positive = positive_sales;
        let r = match self.sales_repo.save(positive_sales) {
            Ok(()) => Ok(new_id),
            Err(e) => Err(AccountingError::Storage(e)),
        };
        assert(transferred(
            old(self).rows(),
            self.rows(),
            old(self).reliable(),
            transfer_rows(
                original_sales,
                sales_id,
                target_section_id,
                date,
                negative.id,
                positive.id,
            ),
            r,
        ));
        r
    }

    /// Closes the term `term_id`. A term that is closed already stays closed,
    /// and that is no error.
    pub fn close_term(&mut self, term_id: Id) -> (r: Result<(), AccountingError>)
        ensures
            final(self).sections() == old(self).sections(),
            final(self).rows() == old(self).rows(),
            final(self).reliable() == old(self).reliable(),
            match old(self).terms().get(term_id) {
                None => r == Err::<(), AccountingError>(AccountingError::NotFound(Missing::Term))
                    && final(self).terms() == old(self).terms(),
                Some(term) => match r {
                    Ok(()) => final(self).terms() == old(self).terms().insert(
                        term.id,
                        term.closed(),
                    ),
                    Err(e) => e is Storage && !old(self).reliable() && final(self).terms()
                    == old(self).terms(),
                },
            },
    {
        let mut term = match self.term_repo.find_by_id(&term_id) {
            Some(term) => term,
            None => {
                return Err(AccountingError::NotFound(Missing::Term));
            },
        };
        term.close();
        match self.term_repo.save(term) {
            Ok(()) => Ok(()),
            Err(e) => Err(AccountingError::Storage(e)),
        }
    }

    /// Restates the figure of the section `section_id` in the term `term_id`
    /// by appending two corrections at that section: `original_amount`
    /// negated, and `correct_amount`. The term may be closed; the date must
    /// lie in its window.
    pub fn correct_term(
        &mut self,
        term_id: Id,
        section_id: Id,
        original_amount: Money,
        correct_amount: Money,
        date: DateTime,
    ) -> (r: Result<(), AccountingError>)
        ensures
            final(self).sections() == old(self).sections(),
            final(self).terms() == old(self).terms(),
            final(self).reliable() == old(self).reliable(),
            match old(self).terms().get(term_id) {
                None => r == Err::<(), AccountingError>(AccountingError::NotFound(Missing::Term))
                    && final(self).rows() == old(self).rows(),
                Some(term) => if !old(self).sections().contains_key(section_id) {
                    r == Err::<(), AccountingError>(AccountingError::NotFound(Missing::Section))
                        && final(self).rows() == old(self).rows()
                } else {
                    match window_check(term, date) {
                        Err(refusal) => r == Err::<(), AccountingError>(refusal)
                            && final(self).rows() == old(self).rows(),
                        Ok(()) => exists|reversal_id: Id, correction_id: Id|
                            corrected(
                                old(self).rows(),
                                final(self).rows(),
                                old(self).reliable(),
                                #[trigger] correction_rows(
                                    term.id,
                                    section_id,
                                    original_amount,
                                    correct_amount,
                                    date,
                                    reversal_id,
                                    correction_id,
                                ),
                                r,
                            ),
                    }
                },
            },
    {
        let term = match self.term_repo.find_by_id(&term_id) {
            Some(term) => term,
            None => {
                return Err(AccountingError::NotFound(Missing::Term));
            },
        };
        if self.section_repo.find_by_id(&section_id).is_none() {
            return Err(AccountingError::NotFound(Missing::Section));
        }
        match check_window(&term, &date) {
            Ok(()) => {},
            Err(refusal) => {
                return Err(refusal);
            },
        }
        let reversal = Sales::new(
            original_amount.neg(),
            date,
            section_id,
            term.id,
            SalesType::Correction,
        );
        let ghost first = reversal;
        match self.sales_repo.save(reversal) {
            Ok(()) => {},
            Err(e) => {
                let r = Err(AccountingError::Storage(e));
                assert(corrected(
                    old(self).rows(),
                    self.rows(),
                    old(self).reliable(),
                    correction_rows(
                        term.id,
                        section_id,
                        original_amount,
                        correct_amount,
                        date,
                        first.id,
                        first.id,
                    ),
                    r,
                ));
                return r;
            },
        }
        let correction = Sales::new(
            correct_amount,
            date,
            section_id,
            term.id,
            SalesType::Correction,
        );
        let ghost second = correction;
        let r = match self.sales_repo.save(correction) {
            Ok(()) => Ok(()),
            Err(e) => Err(AccountingError::Storage(e)),
        };
        assert(corrected(
            old(self).rows(),
            self.rows(),
            old(self).reliable(),
            correction_rows(
                term.id,
                section_id,
                original_amount,
                correct_amount,
                date,
                first.id,
                second.id,
            ),
            r,
        ));
        r
    }

    /// Moves `amount` from the section `source_section_id` to the section
    /// `target_section_id` within the term `term_id` by appending two
    /// corrections: `amount` negated at the source, and `amount` at the
    /// target. The term may be closed; the date must lie in its window.
    pub fn rebalance_term(
        &mut self,
        term_id: Id,
        source_section_id: Id,
        target_section_id: Id,
        amount: Money,
        date: DateTime,
    ) -> (r: Result<(), AccountingError>)
        ensures
            final(self).sections() == old(self).sections(),
            final(self).terms() == old(self).terms(),
            final(self).reliable() == old(self).reliable(),
            match old(self).terms().get(term_id) {
                None => r == Err::<(), AccountingError>(AccountingError::NotFound(Missing::Term))
                    && final(self).rows() == old(self).rows(),
                Some(term) => if !old(self).sections().contains_key(source_section_id) {
                    r == Err::<(), AccountingError>(
                        AccountingError::NotFound(Missing::SourceSection),
                    ) && final(self).rows() == old(self).rows()
                } else if !old(self).sections().contains_key(target_section_id) {
                    r == Err::<(), AccountingError>(
                        AccountingError::NotFound(Missing::TargetSection),
                    ) && final(self).rows() == old(self).rows()
                } else {
                    match window_check(term, date) {
                        Err(refusal) => r == Err::<(), AccountingError>(refusal)
                            && final(self).rows() == old(self).rows(),
                        Ok(()) => exists|source_row_id: Id, target_row_id: Id|
                            corrected(
                                old(self).rows(),
                                final(self).rows(),
                                old(self).reliable(),
                                #[trigger] rebalance_rows(
                                    term.id,
                                    source_section_id,
                                    target_section_id,
                                    amount,
                                    date,
                                    source_row_id,
                                    target_row_id,
                                ),
                                r,
                            ),
                    }
                },
            },
    {
        let term = match self.term_repo.find_by_id(&term_id) {
            Some(term) => term,
            None => {
                return Err(AccountingError::NotFound(Missing::Term));
            },
        };
        if self.section_repo.find_by_id(&source_section_id).is_none() {
            return Err(AccountingError::NotFound(Missing::SourceSection));
        }
        if self.section_repo.find_by_id(&target_section_id).is_none() {
            return Err(AccountingError::NotFound(Missing::TargetSection));
        }
        match check_window(&term, &date) {
            Ok(()) => {},
            Err(refusal) => {
                return Err(refusal);
            },
        }
        let source_correction = Sales::new(
            amount.neg(),
            date,
            source_section_id,
            term.id,
            SalesType::Correction,
        );
        let ghost first = source_correction;
        match self.sales_repo.save(source_correction) {
            Ok(()) => {},
            Err(e) => {
                let r = Err(AccountingError::Storage(e));
                assert(corrected(
                    old(self).rows(),
                    self.rows(),
                    old(self).reliable(),
                    rebalance_rows(
                        term.id,
                        source_section_id,
                        target_section_id,
                        amount,
                        date,
                        first.id,
                        first.id,
                    ),
                    r,
                ));
                return r;
            },
        }
        let target_correction = Sales::new(
            amount,
            date,
            target_section_id,
            term.id,
            SalesType::Correction,
        );
        let ghost second = target_correction;
        let r = match self.sales_repo.save(target_correction) {
            Ok(()) => Ok(()),
            Err(e) => Err(AccountingError::Storage(e)),
        };
        assert(corrected(
            old(self).rows(),
            self.rows(),
            old(self).reliable(),
            rebalance_rows(
                term.id,
                source_section_id,
                target_section_id,
                amount,
                date,
                first.id,
                second.id,
            ),
            r,
        ));
        r
    }
}

} // verus!
