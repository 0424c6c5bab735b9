use accounting::application::service::AccountingService;
use accounting::domain::calendar::{Date, DateTime};
use accounting::domain::decimal::FixedDecimal;
use accounting::domain::entity::{Sales, SalesType, Section, SectionType, Term, TermStatus};
use accounting::domain::error::{AccountingError, Missing};
use accounting::domain::identifier::Id;
use accounting::domain::repository::{SalesRepository, SectionRepository, TermRepository};
use accounting::domain::value_object::Money;
use accounting::infrastructure::in_memory::{
    InMemorySalesRepository, InMemorySectionRepository, InMemoryTermRepository,
};
use chrono::{Datelike, NaiveDate, NaiveDateTime, Timelike};
use rust_decimal::Decimal;
use std::str::FromStr;
use uuid::Uuid;

type Service =
    AccountingService<InMemorySectionRepository, InMemoryTermRepository, InMemorySalesRepository>;

fn new_service() -> Service {
    AccountingService::new(
        InMemorySectionRepository::new(),
        InMemoryTermRepository::new(),
        InMemorySalesRepository::new(),
    )
}

fn money(d: Decimal) -> Money {
    Money::new(FixedDecimal::new(d.mantissa(), d.scale()).unwrap())
}

fn date(d: NaiveDate) -> Date {
    Date::from_ymd_opt(d.year(), d.month(), d.day()).unwrap()
}

fn date_time(t: NaiveDateTime) -> DateTime {
    DateTime::new(date(t.date()), t.num_seconds_from_midnight(), t.nanosecond()).unwrap()
}

fn term_of_2025() -> Term {
    Term::new(
        date(NaiveDate::from_ymd_opt(2025, 1, 1).unwrap()),
        date(NaiveDate::from_ymd_opt(2025, 12, 31).unwrap()),
    )
}

fn at(year: i32, month: u32, day: u32, hour: u32, minute: u32, second: u32) -> DateTime {
    date_time(
        NaiveDate::from_ymd_opt(year, month, day)
            .unwrap()
            .and_hms_opt(hour, minute, second)
            .unwrap(),
    )
}

fn amount(text: &str) -> Money {
    money(Decimal::from_str(text).unwrap())
}

fn rows_of(service: &Service, section_id: Id, term_id: Id) -> Vec<Sales> {
    service.sales_repo().find_by_section_and_term(&section_id, &term_id)
}

#[test]
fn test_register_sales_success() {
    let mut service = AccountingService::new(
        InMemorySectionRepository::new(),
        InMemoryTermRepository::new(),
        InMemorySalesRepository::new(),
    );

    let section = Section::new("Test Section".to_string(), SectionType::Section, None);
    let section_id = service.create_section(section).unwrap();

    let term = Term::new(
        date(NaiveDate::from_ymd_opt(2025, 1, 1).unwrap()),
        date(NaiveDate::from_ymd_opt(2025, 12, 31).unwrap()),
    );
    service.create_term(term).unwrap();

    let amount = money(Decimal::from_str("100.00").unwrap());
    let date =
        date_time(NaiveDate::from_ymd_opt(2025, 6, 1).unwrap().and_hms_opt(10, 0, 0).unwrap());

    let result = service.register_sales(amount, date, section_id);
    assert!(result.is_ok());
}

#[test]
fn test_register_sales_outside_term() {
    let mut service = AccountingService::new(
        InMemorySectionRepository::new(),
        InMemoryTermRepository::new(),
        InMemorySalesRepository::new(),
    );

    let section = Section::new("Test Section".to_string(), SectionType::Section, None);
    let section_id = service.create_section(section).unwrap();

    let term = Term::new(
        date(NaiveDate::from_ymd_opt(2025, 1, 1).unwrap()),
        date(NaiveDate::from_ymd_opt(2025, 12, 31).unwrap()),
    );
    service.create_term(term).unwrap();

    let amount = money(Decimal::from_str("100.00").unwrap());
    let date =
        date_time(NaiveDate::from_ymd_opt(2024, 12, 31).unwrap().and_hms_opt(10, 0, 0).unwrap());

    let result = service.register_sales(amount, date, section_id);
    assert!(result.is_err());
}

#[test]
fn test_correct_term_success() {
    let mut service = AccountingService::new(
        InMemorySectionRepository::new(),
        InMemoryTermRepository::new(),
        InMemorySalesRepository::new(),
    );

    let section = Section::new("Test Section".to_string(), SectionType::Section, None);
    let section_id = service.create_section(section).unwrap();

    let term = Term::new(
        date(NaiveDate::from_ymd_opt(2025, 1, 1).unwrap()),
        date(NaiveDate::from_ymd_opt(2025, 12, 31).unwrap()),
    );
    let term_id = service.create_term(term).unwrap();
    service.close_term(term_id).unwrap();

    let original_amount = money(Decimal::from_str("100.00").unwrap());
    let correct_amount = money(Decimal::from_str("150.00").unwrap());
    let date =
        date_time(NaiveDate::from_ymd_opt(2025, 6, 1).unwrap().and_hms_opt(10, 0, 0).unwrap());

    let result = service.correct_term(term_id, section_id, original_amount, correct_amount, date);
    assert!(result.is_ok());
}

#[test]
fn test_correct_term_invalid_section() {
    let mut service = AccountingService::new(
        InMemorySectionRepository::new(),
        InMemoryTermRepository::new(),
        InMemorySalesRepository::new(),
    );

    let term = Term::new(
        date(NaiveDate::from_ymd_opt(2025, 1, 1).unwrap()),
        date(NaiveDate::from_ymd_opt(2025, 12, 31).unwrap()),
    );
    let term_id = service.create_term(term).unwrap();
    let invalid_section_id = Uuid::new_v4().as_u128();

    let original_amount = money(Decimal::from_str("100.00").unwrap());
    let correct_amount = money(Decimal::from_str("150.00").unwrap());
    let date =
        date_time(NaiveDate::from_ymd_opt(2025, 6, 1).unwrap().and_hms_opt(10, 0, 0).unwrap());

    let result =
        service.correct_term(term_id, invalid_section_id, original_amount, correct_amount, date);
    assert!(result.is_err());
}

#[test]
fn test_rebalance_term_success() {
    let mut service = AccountingService::new(
        InMemorySectionRepository::new(),
        InMemoryTermRepository::new(),
        InMemorySalesRepository::new(),
    );

    let section_a = Section::new("Section A".to_string(), SectionType::Section, None);
    let section_a_id = service.create_section(section_a).unwrap();
    let section_b = Section::new("Section B".to_string(), SectionType::Section, None);
    let section_b_id = service.create_section(section_b).unwrap();

    let term = Term::new(
        date(NaiveDate::from_ymd_opt(2025, 1, 1).unwrap()),
        date(NaiveDate::from_ymd_opt(2025, 12, 31).unwrap()),
    );
    let term_id = service.create_term(term).unwrap();

    let amount = money(Decimal::from_str("100.00").unwrap());
    let date =
        date_time(NaiveDate::from_ymd_opt(2025, 6, 1).unwrap().and_hms_opt(10, 0, 0).unwrap());

    let result = service.rebalance_term(term_id, section_a_id, section_b_id, amount, date);
    assert!(result.is_ok());
}

#[test]
fn registering_a_sale_stores_one_normal_row() {
    let mut service = new_service();
    let a = service
        .create_section(Section::new("Section A".to_string(), SectionType::Section, None))
        .unwrap();
    let term_id = service.create_term(term_of_2025()).unwrap();
    let when = at(2025, 6, 1, 10, 0, 0);

    let sale_id = service.register_sales(amount("100.00"), when, a).unwrap();

    let rows = service.sales_repo().find_by_term(&term_id);
    assert_eq!(rows.len(), 1);
    let row = &rows[0];
    assert_eq!(row.id, sale_id);
    assert_eq!(row.sales_type, SalesType::Normal);
    assert_eq!(row.amount, amount("100.00"));
    assert_eq!(row.amount.amount().mantissa(), 10000);
    assert_eq!(row.amount.amount().scale(), 2);
    assert_eq!(row.section_id, a);
    assert_eq!(row.term_id, term_id);
    assert_eq!(row.date, when);
    assert_eq!(row.related_sales_id, None);
    let found = service.sales_repo().find_by_id(&sale_id).unwrap();
    assert_eq!(found.amount, amount("100.00"));
    assert_eq!(rows_of(&service, a, term_id).len(), 1);
}

#[test]
fn registering_a_sale_dated_before_the_term_is_out_of_range() {
    let mut service = new_service();
    let a = service
        .create_section(Section::new("Section A".to_string(), SectionType::Section, None))
        .unwrap();
    let term_id = service.create_term(term_of_2025()).unwrap();

    let result = service.register_sales(amount("100.00"), at(2024, 12, 31, 10, 0, 0), a);

    assert_eq!(result, Err(AccountingError::OutOfRange));
    assert!(service.sales_repo().find_by_term(&term_id).is_empty());
    let late = service.register_sales(amount("100.00"), at(2026, 1, 1, 0, 0, 0), a);
    assert_eq!(late, Err(AccountingError::OutOfRange));
    assert!(service.register_sales(amount("100.00"), at(2025, 1, 1, 0, 0, 0), a).is_ok());
    assert!(service.register_sales(amount("100.00"), at(2025, 12, 31, 23, 59, 59), a).is_ok());
}

#[test]
fn registering_a_zero_amount_is_invalid() {
    let mut service = new_service();
    let a = service
        .create_section(Section::new("Section A".to_string(), SectionType::Section, None))
        .unwrap();
    let term_id = service.create_term(term_of_2025()).unwrap();

    let result = service.register_sales(amount("0"), at(2025, 6, 1, 10, 0, 0), a);

    assert_eq!(result, Err(AccountingError::InvalidAmount));
    assert_eq!(
        service.register_sales(amount("0.00"), at(2025, 6, 1, 10, 0, 0), a),
        Err(AccountingError::InvalidAmount)
    );
    assert!(service.sales_repo().find_by_term(&term_id).is_empty());
    assert!(service.register_sales(amount("-5.00"), at(2025, 6, 1, 10, 0, 0), a).is_ok());
}

#[test]
fn registration_checks_run_in_order() {
    let mut service = new_service();
    let unknown = Uuid::new_v4().as_u128();
    // Unknown section wins over everything else, even with no term open.
    assert_eq!(
        service.register_sales(amount("0"), at(2024, 12, 31, 0, 0, 0), unknown),
        Err(AccountingError::NotFound(Missing::Section))
    );
    let a = service
        .create_section(Section::new("Section A".to_string(), SectionType::Section, None))
        .unwrap();
    // No open term comes next.
    assert_eq!(
        service.register_sales(amount("0"), at(2024, 12, 31, 0, 0, 0), a),
        Err(AccountingError::NoOpenTerm)
    );
    let term_id = service.create_term(term_of_2025()).unwrap();
    assert_eq!(
        service.register_sales(amount("0"), at(2024, 12, 31, 0, 0, 0), unknown),
        Err(AccountingError::NotFound(Missing::Section))
    );
    // The date is judged before the amount.
    assert_eq!(
        service.register_sales(amount("0"), at(2024, 12, 31, 0, 0, 0), a),
        Err(AccountingError::OutOfRange)
    );
    assert_eq!(
        service.register_sales(amount("0"), at(2025, 3, 1, 0, 0, 0), a),
        Err(AccountingError::InvalidAmount)
    );
    // A closed term is not open.
    service.close_term(term_id).unwrap();
    assert_eq!(
        service.register_sales(amount("1"), at(2025, 3, 1, 0, 0, 0), a),
        Err(AccountingError::NoOpenTerm)
    );
    assert!(service.sales_repo().find_by_term(&term_id).is_empty());
}

#[test]
fn transferring_a_sale_appends_two_linked_adjustments() {
    let mut service = new_service();
    let a = service
        .create_section(Section::new("Section A".to_string(), SectionType::Section, None))
        .unwrap();
    let b = service
        .create_section(Section::new("Section B".to_string(), SectionType::Section, None))
        .unwrap();
    let term_id = service.create_term(term_of_2025()).unwrap();
    let sale_id = service.register_sales(amount("100.00"), at(2025, 6, 1, 10, 0, 0), a).unwrap();
    let when = at(2025, 6, 20, 14, 0, 0);

    let new_id = service.transform_sales(sale_id, b, when).unwrap();

    assert_eq!(service.sales_repo().find_by_term(&term_id).len(), 3);
    let at_a = rows_of(&service, a, term_id);
    assert_eq!(at_a.len(), 2);
    let negative = at_a.iter().find(|row| row.id != sale_id).unwrap();
    assert_eq!(negative.amount, amount("-100.00"));
    assert_eq!(negative.amount.amount().mantissa(), -10000);
    assert_eq!(negative.amount.amount().scale(), 2);
    assert_eq!(negative.sales_type, SalesType::Adjustment);
    assert_eq!(negative.related_sales_id, Some(sale_id));
    assert_eq!(negative.section_id, a);
    assert_eq!(negative.term_id, term_id);
    assert_eq!(negative.date, when);
    let at_b = rows_of(&service, b, term_id);
    assert_eq!(at_b.len(), 1);
    let positive = &at_b[0];
    assert_eq!(positive.id, new_id);
    assert_eq!(positive.amount, amount("100.00"));
    assert_eq!(positive.sales_type, SalesType::Adjustment);
    assert_eq!(positive.related_sales_id, Some(sale_id));
    assert_eq!(positive.section_id, b);
    assert_eq!(positive.term_id, term_id);
    assert_eq!(positive.date, when);
    // The pair sums to zero, and the original row is as it was.
    assert!((negative.amount + positive.amount).is_zero());
    let original = service.sales_repo().find_by_id(&sale_id).unwrap();
    assert_eq!(original.amount, amount("100.00"));
    assert_eq!(original.sales_type, SalesType::Normal);
    assert_eq!(original.section_id, a);
    assert_eq!(original.term_id, term_id);
    assert_eq!(original.date, at(2025, 6, 1, 10, 0, 0));
    assert_eq!(original.related_sales_id, None);
}

#[test]
fn transferring_needs_the_sale_and_the_target() {
    let mut service = new_service();
    let a = service
        .create_section(Section::new("Section A".to_string(), SectionType::Section, None))
        .unwrap();
    let term_id = service.create_term(term_of_2025()).unwrap();
    let sale_id = service.register_sales(amount("100.00"), at(2025, 6, 1, 10, 0, 0), a).unwrap();
    let unknown = Uuid::new_v4().as_u128();

    assert_eq!(
        service.transform_sales(unknown, unknown, at(2025, 6, 20, 0, 0, 0)),
        Err(AccountingError::NotFound(Missing::Sales))
    );
    assert_eq!(
        service.transform_sales(sale_id, unknown, at(2025, 6, 20, 0, 0, 0)),
        Err(AccountingError::NotFound(Missing::TargetSection))
    );
    assert_eq!(service.sales_repo().find_by_term(&term_id).len(), 1);
    // The date of a transfer is not held against the window, and the term may be closed.
    service.close_term(term_id).unwrap();
    assert!(service.transform_sales(sale_id, a, at(2030, 1, 1, 0, 0, 0)).is_ok());
    assert_eq!(service.sales_repo().find_by_term(&term_id).len(), 3);
}

#[test]
fn rebalancing_after_close_appends_a_zero_sum_pair() {
    let mut service = new_service();
    let a = service
        .create_section(Section::new("Section A".to_string(), SectionType::Section, None))
        .unwrap();
    let b = service
        .create_section(Section::new("Section B".to_string(), SectionType::Section, None))
        .unwrap();
    let term_id = service.create_term(term_of_2025()).unwrap();
    service.close_term(term_id).unwrap();
    let when = at(2025, 12, 31, 23, 59, 59);

    let result = service.rebalance_term(term_id, b, a, amount("100.00"), when);

    assert_eq!(result, Ok(()));
    let at_b = rows_of(&service, b, term_id);
    assert_eq!(at_b.len(), 1);
    assert_eq!(at_b[0].amount, amount("-100.00"));
    assert_eq!(at_b[0].sales_type, SalesType::Correction);
    assert_eq!(at_b[0].related_sales_id, None);
    assert_eq!(at_b[0].date, when);
    let at_a = rows_of(&service, a, term_id);
    assert_eq!(at_a.len(), 1);
    assert_eq!(at_a[0].amount, amount("100.00"));
    assert_eq!(at_a[0].sales_type, SalesType::Correction);
    assert_eq!(at_a[0].related_sales_id, None);
    assert_eq!(at_a[0].term_id, at_b[0].term_id);
    assert!((at_a[0].amount + at_b[0].amount).is_zero());
    assert_eq!(service.term_repo().find_by_id(&term_id).unwrap().status, TermStatus::Closed);
}

#[test]
fn rebalancing_checks_term_then_source_then_target_then_date() {
    let mut service = new_service();
    let unknown = Uuid::new_v4().as_u128();
    let outside = at(2026, 1, 1, 0, 0, 0);
    assert_eq!(
        service.rebalance_term(unknown, unknown, unknown, amount("1"), outside),
        Err(AccountingError::NotFound(Missing::Term))
    );
    let term_id = service.create_term(term_of_2025()).unwrap();
    assert_eq!(
        service.rebalance_term(term_id, unknown, unknown, amount("1"), outside),
        Err(AccountingError::NotFound(Missing::SourceSection))
    );
    let a = service
        .create_section(Section::new("Section A".to_string(), SectionType::Section, None))
        .unwrap();
    assert_eq!(
        service.rebalance_term(term_id, a, unknown, amount("1"), outside),
        Err(AccountingError::NotFound(Missing::TargetSection))
    );
    let b = service
        .create_section(Section::new("Section B".to_string(), SectionType::Section, None))
        .unwrap();
    assert_eq!(
        service.rebalance_term(term_id, a, b, amount("1"), outside),
        Err(AccountingError::OutOfRange)
    );
    assert_eq!(
        service.rebalance_term(term_id, a, b, amount("1"), at(2024, 12, 31, 23, 59, 59)),
        Err(AccountingError::OutOfRange)
    );
    assert!(service.sales_repo().find_by_term(&term_id).is_empty());
    // A zero amount is not refused here.
    assert_eq!(service.rebalance_term(term_id, a, b, amount("0"), at(2025, 1, 1, 0, 0, 0)), Ok(()));
    assert_eq!(service.sales_repo().find_by_term(&term_id).len(), 2);
}

#[test]
fn correcting_a_term_restates_one_section() {
    let mut service = new_service();
    let a = service
        .create_section(Section::new("Section A".to_string(), SectionType::Section, None))
        .unwrap();
    let term_id = service.create_term(term_of_2025()).unwrap();
    service.close_term(term_id).unwrap();
    let when = at(2025, 6, 1, 10, 0, 0);

    let result = service.correct_term(term_id, a, amount("100.00"), amount("150.00"), when);

    assert_eq!(result, Ok(()));
    let rows = rows_of(&service, a, term_id);
    assert_eq!(rows.len(), 2);
    let reversal = rows.iter().find(|row| row.amount < Money::zero()).unwrap();
    let correction = rows.iter().find(|row| row.amount > Money::zero()).unwrap();
    assert_eq!(reversal.amount, amount("-100.00"));
    assert_eq!(correction.amount, amount("150.00"));
    assert_eq!(reversal.sales_type, SalesType::Correction);
    assert_eq!(correction.sales_type, SalesType::Correction);
    assert_eq!(reversal.related_sales_id, None);
    assert_eq!(correction.related_sales_id, None);
    assert_eq!(reversal.date, when);
    assert_eq!(correction.date, when);
    // The net change is the corrected amount less the original, here not zero.
    let net = reversal.amount + correction.amount;
    assert_eq!(net, amount("150.00") - amount("100.00"));
    assert_eq!(net, amount("50.00"));
    assert!(!net.is_zero());
}

#[test]
fn correcting_checks_term_then_section_then_date() {
    let mut service = new_service();
    let unknown = Uuid::new_v4().as_u128();
    let outside = at(2024, 12, 31, 10, 0, 0);
    assert_eq!(
        service.correct_term(unknown, unknown, amount("1"), amount("2"), outside),
        Err(AccountingError::NotFound(Missing::Term))
    );
    let term_id = service.create_term(term_of_2025()).unwrap();
    assert_eq!(
        service.correct_term(term_id, unknown, amount("1"), amount("2"), outside),
        Err(AccountingError::NotFound(Missing::Section))
    );
    let a = service
        .create_section(Section::new("Section A".to_string(), SectionType::Section, None))
        .unwrap();
    assert_eq!(
        service.correct_term(term_id, a, amount("1"), amount("2"), outside),
        Err(AccountingError::OutOfRange)
    );
    assert_eq!(
        service.correct_term(term_id, a, amount("1"), amount("2"), at(2026, 1, 1, 0, 0, 0)),
        Err(AccountingError::OutOfRange)
    );
    assert!(service.sales_repo().find_by_term(&term_id).is_empty());
}

#[test]
fn closing_a_term_is_idempotent() {
    let mut service = new_service();
    let term_id = service.create_term(term_of_2025()).unwrap();
    assert_eq!(service.term_repo().find_by_id(&term_id).unwrap().status, TermStatus::Open);
    assert!(service.term_repo().find_open_term().is_some());

    assert_eq!(service.close_term(term_id), Ok(()));
    assert_eq!(service.term_repo().find_by_id(&term_id).unwrap().status, TermStatus::Closed);
    assert_eq!(service.close_term(term_id), Ok(()));
    let term = service.term_repo().find_by_id(&term_id).unwrap();
    assert_eq!(term.status, TermStatus::Closed);
    assert_eq!(term.id, term_id);
    assert_eq!(term.start_date, date(NaiveDate::from_ymd_opt(2025, 1, 1).unwrap()));
    assert_eq!(term.end_date, date(NaiveDate::from_ymd_opt(2025, 12, 31).unwrap()));
    assert!(service.term_repo().find_open_term().is_none());

    let unknown = Uuid::new_v4().as_u128();
    assert_eq!(service.close_term(unknown), Err(AccountingError::NotFound(Missing::Term)));
}

#[test]
fn creating_returns_the_identifier_and_stores_as_given() {
    let mut service = new_service();
    let parent = Uuid::new_v4().as_u128();
    let section = Section::new("Sales".to_string(), SectionType::Department, Some(parent));
    let expected = section.id;
    assert_eq!(service.create_section(section), Ok(expected));
    let stored = service.section_repo().find_by_id(&expected).unwrap();
    assert_eq!(stored.name, "Sales");
    assert_eq!(stored.section_type, SectionType::Department);
    assert_eq!(stored.parent_id, Some(parent));

    // Several terms may be open at once, with overlapping windows.
    let first = term_of_2025();
    let first_id = first.id;
    assert_eq!(service.create_term(first), Ok(first_id));
    let second = term_of_2025();
    let second_id = second.id;
    assert_eq!(service.create_term(second), Ok(second_id));
    assert_eq!(service.term_repo().find_by_id(&first_id).unwrap().status, TermStatus::Open);
    assert_eq!(service.term_repo().find_by_id(&second_id).unwrap().status, TermStatus::Open);
    let open = service.term_repo().find_open_term().unwrap();
    assert!(open.id == first_id || open.id == second_id);
}

#[test]
fn errors_have_their_messages() {
    assert_eq!(AccountingError::NotFound(Missing::Section).message(), "Section not found");
    assert_eq!(
        AccountingError::NotFound(Missing::SourceSection).message(),
        "Source section not found"
    );
    assert_eq!(
        AccountingError::NotFound(Missing::TargetSection).message(),
        "Target section not found"
    );
    assert_eq!(AccountingError::NotFound(Missing::Term).message(), "Term not found");
    assert_eq!(AccountingError::NotFound(Missing::Sales).message(), "Sales not found");
    assert_eq!(AccountingError::NoOpenTerm.message(), "No open term found");
    assert_eq!(AccountingError::OutOfRange.message(), "Date is outside of the term");
    assert_eq!(AccountingError::InvalidAmount.message(), "Sales amount cannot be zero");
    assert_eq!(AccountingError::Storage("disk full".to_string()).message(), "disk full");
    let error = AccountingError::Storage("disk full".to_string());
    assert_eq!(error.clone(), error);
    assert_eq!(AccountingError::OutOfRange.clone(), AccountingError::OutOfRange);
}
