//! The rules of the ledger: which sales are accepted, and which rows a
//! transfer, a restatement and a rebalance append.
//!
//! Rows are only ever added. A transfer and a rebalance add a pair of rows
//! that cancel each other; a restatement adds a reversal and the corrected
//! figure.

use crate::domain::calendar::DateTime;
use crate::domain::decimal::{lemma_comparisons_count_units, pow10, FixedDecimal};
use crate::domain::entity::{Sales, SalesType, Term, TermStatus};
use crate::domain::error::AccountingError;
use crate::domain::identifier::Id;
use crate::domain::value_object::Money;
use vstd::prelude::*;

verus! {

/// Whether a row dated `date` may be booked on `term`: only the window
/// counts, not whether the term is open.
pub open spec fn window_check(term: Term, date: DateTime) -> Result<(), AccountingError> {
    if term.covers(date@.day) {
        Ok(())
    } else {
        Err(AccountingError::OutOfRange)
    }
}

/// Whether a new sale of `amount` dated `date` may be registered on `term`:
/// the date must lie within the window, and then the amount must not be zero.
pub open spec fn registration_check(term: Term, amount: Money, date: DateTime) -> Result<
    (),
    AccountingError,
> {
    if !term.covers(date@.day) {
        Err(AccountingError::OutOfRange)
    } else if amount@.is_zero() {
        Err(AccountingError::InvalidAmount)
    } else {
        Ok(())
    }
}

/// Decides whether a row dated `date` may be booked on `term`.
pub fn check_window(term: &Term, date: &DateTime) -> (r: Result<(), AccountingError>)
    ensures
        r == window_check(*term, *date),
{
    let day = date.date();
    if term.includes(&day) {
        Ok(())
    } else {
        Err(AccountingError::OutOfRange)
    }
}

/// Decides whether a new sale may be registered on `term`.
pub fn check_registration(term: &Term, amount: &Money, date: &DateTime) -> (r: Result<
    (),
    AccountingError,
>)
    ensures
        r == registration_check(*term, *amount, *date),
{
    let day = date.date();
    if !term.includes(&day) {
        Err(AccountingError::OutOfRange)
    } else if amount.is_zero() {
        Err(AccountingError::InvalidAmount)
    } else {
        Ok(())
    }
}

/// The row that registering a sale appends.
pub open spec fn normal_row(
    id: Id,
    amount: Money,
    date: DateTime,
    section_id: Id,
    term_id: Id,
) -> Sales {
    Sales {
        id,
        amount,
        date,
        section_id,
        term_id,
        sales_type: SalesType::Normal,
        related_sales_id: None,
    }
}

/// The two rows that transferring the sale `original`, stored under
/// `sales_id`, to the section `target_section_id` appends: the negative leg at
/// the sale's own section, then the positive leg at the target.
pub open spec fn transfer_rows(
    original: Sales,
    sales_id: Id,
    target_section_id: Id,
    date: DateTime,
    negative_id: Id,
    positive_id: Id,
) -> (Sales, Sales) {
    (
        Sales {
            id: negative_id,
            amount: original.amount.negated(),
            date,
            section_id: original.section_id,
            term_id: original.term_id,
            sales_type: SalesType::Adjustment,
            related_sales_id: Some(sales_id),
        },
        Sales {
            id: positive_id,
            amount: original.amount,
            date,
            section_id: target_section_id,
            term_id: original.term_id,
            sales_type: SalesType::Adjustment,
            related_sales_id: Some(sales_id),
        },
    )
}

/// The two rows that restating a section's figure appends: the reversal of
/// `original_amount`, then `correct_amount`, both at the same section.
pub open spec fn correction_rows(
    term_id: Id,
    section_id: Id,
    original_amount: Money,
    correct_amount: Money,
    date: DateTime,
    reversal_id: Id,
    correction_id: Id,
) -> (Sales, Sales) {
    (
        Sales {
            id: reversal_id,
            amount: original_amount.negated(),
            date,
            section_id,
            term_id,
            sales_type: SalesType::Correction,
            related_sales_id: None,
        },
        Sales {
            id: correction_id,
            amount: correct_amount,
            date,
            section_id,
            term_id,
            sales_type: SalesType::Correction,
            related_sales_id: None,
        },
    )
}

/// The two rows that moving `amount` between sections appends: the negative
/// row at the source, then the positive row at the target.
pub open spec fn rebalance_rows(
    term_id: Id,
    source_section_id: Id,
    target_section_id: Id,
    amount: Money,
    date: DateTime,
    source_row_id: Id,
    target_row_id: Id,
) -> (Sales, Sales) {
    (
        Sales {
            id: source_row_id,
            amount: amount.negated(),
            date,
            section_id: source_section_id,
            term_id,
            sales_type: SalesType::Correction,
            related_sales_id: None,
        },
        Sales {
            id: target_row_id,
            amount,
            date,
            section_id: target_section_id,
            term_id,
            sales_type: SalesType::Correction,
            related_sales_id: None,
        },
    )
}

/// What two rows add up to, counted in units of `10^-scale`. The count is
/// exact for every scale that is at least the scale of each amount.
pub open spec fn pair_total(rows: (Sales, Sales), scale: nat) -> int {
    rows.0.amount@.units(scale) + rows.1.amount@.units(scale)
}

/// An accepted sale is stored as a normal row with the amount given, which is
/// not zero, and with a date inside the window of the term it is booked on.
pub proof fn lemma_registered_sale(
    term: Term,
    amount: Money,
    date: DateTime,
    section_id: Id,
    id: Id,
)
    requires
        registration_check(term, amount, date) is Ok,
    ensures
        ({
            let row = normal_row(id, amount, date, section_id, term.id);
            &&& row.sales_type == SalesType::Normal
            &&& row.amount == amount
            &&& !row.amount@.is_zero()
            &&& term.covers(row.date@.day)
            &&& row.section_id == section_id
            &&& row.term_id == term.id
        }),
{
}

/// A date outside the window is refused as out of range, whatever the amount;
/// inside the window a zero amount is refused as invalid. So a zero amount is
/// never registered.
pub proof fn lemma_registration_refusals(term: Term, amount: Money, date: DateTime)
    ensures
        !term.covers(date@.day) ==> registration_check(term, amount, date) == Err::<
            (),
            AccountingError,
        >(AccountingError::OutOfRange),
        term.covers(date@.day) && amount@.is_zero() ==> registration_check(term, amount, date)
            == Err::<(), AccountingError>(AccountingError::InvalidAmount),
        amount@.is_zero() ==> registration_check(term, amount, date) is Err,
{
}

/// The two legs of a transfer cancel each other, are both adjustments that
/// point back at the sale transferred, and lie in the sale's term. Where
/// neither leg takes the sale's identifier, the sale stays in the store as it
/// was.
pub proof fn lemma_transfer_is_zero_sum(
    rows: Map<Id, Sales>,
    original: Sales,
    sales_id: Id,
    target_section_id: Id,
    date: DateTime,
    negative_id: Id,
    positive_id: Id,
)
    requires
        original.amount@.representable(),
        rows.get(sales_id) == Some(original),
        negative_id != sales_id,
        positive_id != sales_id,
    ensures
        ({
            let legs = transfer_rows(
                original,
                sales_id,
                target_section_id,
                date,
                negative_id,
                positive_id,
            );
            &&& legs.0.amount@ == original.amount@.negated()
            &&& legs.1.amount@ == original.amount@
            &&& forall|scale: nat|
                scale >= original.amount@.scale ==> #[trigger] pair_total(legs, scale) == 0
            &&& legs.0.related_sales_id == Some(sales_id)
            &&& legs.1.related_sales_id == Some(sales_id)
            &&& legs.0.sales_type == SalesType::Adjustment
            &&& legs.1.sales_type == SalesType::Adjustment
            &&& legs.0.term_id == original.term_id
            &&& legs.1.term_id == original.term_id
            &&& legs.0.section_id == original.section_id
            &&& legs.1.section_id == target_section_id
            &&& rows.insert(legs.0.id, legs.0).insert(legs.1.id, legs.1).get(sales_id) == Some(
                original,
            )
        }),
{
    let legs = transfer_rows(original, sales_id, target_section_id, date, negative_id, positive_id);
    lemma_negated_amount(original.amount);
    assert forall|scale: nat| scale >= original.amount@.scale implies #[trigger] pair_total(
        legs,
        scale,
    ) == 0 by {
        lemma_opposite_units(original.amount, scale);
    }
}

/// The two rows of a rebalance cancel each other and lie in the same term.
/// Whether that term is open or closed plays no part: closing it changes
/// neither the rows nor whether the date is accepted.
pub proof fn lemma_rebalance_is_zero_sum(
    term: Term,
    source_section_id: Id,
    target_section_id: Id,
    amount: Money,
    date: DateTime,
    source_row_id: Id,
    target_row_id: Id,
)
    requires
        amount@.representable(),
    ensures
        ({
            let rows = rebalance_rows(
                term.id,
                source_section_id,
                target_section_id,
                amount,
                date,
                source_row_id,
                target_row_id,
            );
            &&& rows.0.amount@ == amount@.negated()
            &&& rows.1.amount@ == amount@
            &&& forall|scale: nat|
                scale >= amount@.scale ==> #[trigger] pair_total(rows, scale) == 0
            &&& rows.0.term_id == term.id
            &&& rows.1.term_id == term.id
            &&& rows.0.sales_type == SalesType::Correction
            &&& rows.1.sales_type == SalesType::Correction
            &&& rows.0.section_id == source_section_id
            &&& rows.1.section_id == target_section_id
            &&& rows == rebalance_rows(
                term.closed().id,
                source_section_id,
                target_section_id,
                amount,
                date,
                source_row_id,
                target_row_id,
            )
        }),
        window_check(term.closed(), date) == window_check(term, date),
{
    let rows = rebalance_rows(
        term.id,
        source_section_id,
        target_section_id,
        amount,
        date,
        source_row_id,
        target_row_id,
    );
    lemma_negated_amount(amount);
    assert forall|scale: nat| scale >= amount@.scale implies #[trigger] pair_total(rows, scale)
        == 0 by {
        lemma_opposite_units(amount, scale);
    }
}

/// The two rows of a restatement add up to the corrected amount less the
/// original one: the section's figure changes by exactly that much. They
/// cancel each other only where the corrected amount equals the original one.
/// Both rows are corrections at the one section and term.
pub proof fn lemma_correction_net_change(
    term_id: Id,
    section_id: Id,
    original_amount: Money,
    correct_amount: Money,
    date: DateTime,
    reversal_id: Id,
    correction_id: Id,
)
    requires
        original_amount@.representable(),
    ensures
        ({
            let rows = correction_rows(
                term_id,
                section_id,
                original_amount,
                correct_amount,
                date,
                reversal_id,
                correction_id,
            );
            &&& rows.0.amount@ == original_amount@.negated()
            &&& rows.1.amount@ == correct_amount@
            &&& forall|scale: nat|
                scale >= original_amount@.scale && scale >= correct_amount@.scale ==> {
                    &&& #[trigger] pair_total(rows, scale) == correct_amount@.units(scale)
                        - original_amount@.units(scale)
                    &&& pair_total(rows, scale) == 0 <==> correct_amount@.same_value(
                        original_amount@,
                    )
                }
            &&& rows.0.section_id == section_id
            &&& rows.1.section_id == section_id
            &&& rows.0.term_id == term_id
            &&& rows.1.term_id == term_id
            &&& rows.0.sales_type == SalesType::Correction
            &&& rows.1.sales_type == SalesType::Correction
        }),
{
    let rows = correction_rows(
        term_id,
        section_id,
        original_amount,
        correct_amount,
        date,
        reversal_id,
        correction_id,
    );
    lemma_negated_amount(original_amount);
    assert forall|scale: nat|
        scale >= original_amount@.scale && scale >= correct_amount@.scale implies {
        &&& #[trigger] pair_total(rows, scale) == correct_amount@.units(scale)
            - original_amount@.units(scale)
        &&& pair_total(rows, scale) == 0 <==> correct_amount@.same_value(original_amount@)
    } by {
        lemma_opposite_units(original_amount, scale);
        lemma_comparisons_count_units(correct_amount@, original_amount@, scale);
    }
}

/// Closing is idempotent: a closed term is closed, and closing it again gives
/// the same term. Saving the outcome over a closed term that is stored under
/// its own identifier leaves the store as it was.
pub proof fn lemma_close_is_idempotent(terms: Map<Id, Term>, term: Term)
    ensures
        term.closed().status == TermStatus::Closed,
        term.closed().closed() == term.closed(),
        term.status == TermStatus::Closed ==> term.closed() == term,
        terms.get(term.id) == Some(term) && term.status == TermStatus::Closed ==> terms.insert(
            term.closed().id,
            term.closed(),
        ) == terms,
{
    if terms.get(term.id) == Some(term) && term.status == TermStatus::Closed {
        assert(terms.insert(term.closed().id, term.closed()) =~= terms);
    }
}

/// The negation of a representable amount holds the negated value.
proof fn lemma_negated_amount(amount: Money)
    requires
        amount@.representable(),
    ensures
        amount.negated()@ == amount@.negated(),
{
    FixedDecimal::lemma_fraction_of_decimal(amount@.negated());
}

/// An amount and its negation count opposite numbers of units.
proof fn lemma_opposite_units(amount: Money, scale: nat)
    ensures
        amount@.negated().units(scale) + amount@.units(scale) == 0,
{
    let p = pow10((scale - amount@.scale) as nat);
    let m = amount@.mantissa;
    assert((-m) * p + m * p == 0) by (nonlinear_arith);
}

} // verus!
