use accounting::application::service::AccountingService;
use accounting::domain::calendar::{Date, DateTime};
use accounting::domain::decimal::FixedDecimal;
use accounting::domain::entity::{Sales, SalesType, Section, SectionType, Term, TermStatus};
use accounting::domain::error::AccountingError;
use accounting::domain::identifier::Id;
use accounting::domain::repository::{SalesRepository, SectionRepository, TermRepository};
use accounting::domain::value_object::Money;
use accounting::infrastructure::in_memory::{
    InMemorySalesRepository, InMemorySectionRepository, InMemoryTermRepository,
};

fn ymd(year: i32, month: u32, day: u32) -> Date {
    Date::from_ymd_opt(year, month, day).unwrap()
}

fn day(year: i32, month: u32, day: u32) -> DateTime {
    DateTime::new(ymd(year, month, day), 0, 0).unwrap()
}

fn units(n: i128) -> Money {
    Money::new(FixedDecimal::new(n, 0).unwrap())
}

fn row(id: Id, section_id: Id, term_id: Id, n: i128) -> Sales {
    Sales {
        id,
        amount: units(n),
        date: day(2025, 3, 1),
        section_id,
        term_id,
        sales_type: SalesType::Normal,
        related_sales_id: None,
    }
}

fn sorted_ids(rows: &[Sales]) -> Vec<Id> {
    let mut ids: Vec<Id> = rows.iter().map(|r| r.id).collect();
    ids.sort();
    ids
}

#[test]
fn section_store_saves_finds_and_replaces() {
    let mut repo = InMemorySectionRepository::new();
    assert!(repo.find_by_id(&1).is_none());
    let section = Section {
        id: 1,
        name: "One".to_string(),
        section_type: SectionType::Section,
        parent_id: None,
    };
    assert_eq!(repo.save(section), Ok(()));
    let found = repo.find_by_id(&1).unwrap();
    assert_eq!(found.id, 1);
    assert_eq!(found.name, "One");
    assert!(repo.find_by_id(&2).is_none());
    let renamed = Section {
        id: 1,
        name: "Uno".to_string(),
        section_type: SectionType::Division,
        parent_id: Some(9),
    };
    assert_eq!(repo.save(renamed), Ok(()));
    let found = repo.find_by_id(&1).unwrap();
    assert_eq!(found.name, "Uno");
    assert_eq!(found.section_type, SectionType::Division);
    assert_eq!(found.parent_id, Some(9));
    assert!(InMemorySectionRepository::default().find_by_id(&1).is_none());
}

#[test]
fn a_read_is_a_copy() {
    let mut repo = InMemoryTermRepository::new();
    let term = Term {
        id: 4,
        start_date: ymd(2025, 1, 1),
        end_date: ymd(2025, 12, 31),
        status: TermStatus::Open,
    };
    repo.save(term).unwrap();
    let mut copy = repo.find_by_id(&4).unwrap();
    copy.close();
    assert_eq!(copy.status, TermStatus::Closed);
    assert_eq!(repo.find_by_id(&4).unwrap().status, TermStatus::Open);
}

#[test]
fn term_store_finds_an_open_term_only_while_one_is_open() {
    let mut repo = InMemoryTermRepository::default();
    assert!(repo.find_open_term().is_none());
    let closed = Term {
        id: 1,
        start_date: ymd(2024, 1, 1),
        end_date: ymd(2024, 12, 31),
        status: TermStatus::Closed,
    };
    repo.save(closed).unwrap();
    assert!(repo.find_open_term().is_none());
    let open = Term {
        id: 2,
        start_date: ymd(2025, 1, 1),
        end_date: ymd(2025, 12, 31),
        status: TermStatus::Open,
    };
    repo.save(open).unwrap();
    let found = repo.find_open_term().unwrap();
    assert_eq!(found.id, 2);
    assert_eq!(found.status, TermStatus::Open);
    assert_eq!(found.start_date, ymd(2025, 1, 1));
    let mut again = repo.find_by_id(&2).unwrap();
    again.close();
    repo.save(again).unwrap();
    assert!(repo.find_open_term().is_none());
    assert_eq!(repo.find_by_id(&1).unwrap().status, TermStatus::Closed);
}

#[test]
fn sales_store_selects_by_term_and_by_section() {
    let mut repo = InMemorySalesRepository::new();
    assert!(repo.find_by_term(&100).is_empty());
    repo.save(row(1, 10, 100, 5)).unwrap();
    repo.save(row(2, 11, 100, 6)).unwrap();
    repo.save(row(3, 10, 101, 7)).unwrap();
    repo.save(row(4, 10, 100, 8)).unwrap();
    repo.save(row(5, 12, 102, 9)).unwrap();

    assert_eq!(sorted_ids(&repo.find_by_term(&100)), vec![1, 2, 4]);
    assert_eq!(sorted_ids(&repo.find_by_term(&101)), vec![3]);
    assert!(repo.find_by_term(&103).is_empty());
    assert_eq!(sorted_ids(&repo.find_by_section_and_term(&10, &100)), vec![1, 4]);
    assert_eq!(sorted_ids(&repo.find_by_section_and_term(&11, &100)), vec![2]);
    assert!(repo.find_by_section_and_term(&11, &101).is_empty());
    assert!(repo.find_by_section_and_term(&12, &100).is_empty());
    let found = repo.find_by_id(&3).unwrap();
    assert_eq!(found.amount, units(7));
    assert_eq!(found.section_id, 10);
    assert_eq!(found.term_id, 101);
    assert!(repo.find_by_id(&6).is_none());
    // Saving under a stored identifier replaces the row.
    repo.save(row(2, 10, 100, 60)).unwrap();
    assert_eq!(sorted_ids(&repo.find_by_term(&100)), vec![1, 2, 4]);
    assert_eq!(sorted_ids(&repo.find_by_section_and_term(&10, &100)), vec![1, 2, 4]);
    assert_eq!(repo.find_by_id(&2).unwrap().amount, units(60));
    assert!(InMemorySalesRepository::default().find_by_term(&100).is_empty());
}

/// A sales store that accepts a given number of writes and refuses the rest.
struct Faltering {
    inner: InMemorySalesRepository,
    writes_left: usize,
}

impl SalesRepository for Faltering {
    fn save(&mut self, sales: Sales) -> Result<(), String> {
        if self.writes_left == 0 {
            return Err("disk full".to_string());
        }
        self.writes_left -= 1;
        self.inner.save(sales)
    }

    fn find_by_id(&self, id: &Id) -> Option<Sales> {
        self.inner.find_by_id(id)
    }

    fn find_by_term(&self, term_id: &Id) -> Vec<Sales> {
        self.inner.find_by_term(term_id)
    }

    fn find_by_section_and_term(&self, section_id: &Id, term_id: &Id) -> Vec<Sales> {
        self.inner.find_by_section_and_term(section_id, term_id)
    }
}

fn faltering_service(
    writes: usize,
) -> (AccountingService<InMemorySectionRepository, InMemoryTermRepository, Faltering>, Id, Id, Id)
{
    let mut service = AccountingService::new(
        InMemorySectionRepository::new(),
        InMemoryTermRepository::new(),
        Faltering { inner: InMemorySalesRepository::new(), writes_left: writes },
    );
    let a = service
        .create_section(Section::new("A".to_string(), SectionType::Section, None))
        .unwrap();
    let b = service
        .create_section(Section::new("B".to_string(), SectionType::Section, None))
        .unwrap();
    let term_id = service
        .create_term(Term::new(ymd(2025, 1, 1), ymd(2025, 12, 31)))
        .unwrap();
    (service, a, b, term_id)
}

#[test]
fn a_refused_write_is_reported_and_nothing_is_stored() {
    let (mut service, a, _b, term_id) = faltering_service(0);
    let result = service.register_sales(units(100), day(2025, 6, 1), a);
    assert_eq!(result, Err(AccountingError::Storage("disk full".to_string())));
    assert!(service.sales_repo().find_by_term(&term_id).is_empty());
    let result = service.correct_term(term_id, a, units(1), units(2), day(2025, 6, 1));
    assert_eq!(result, Err(AccountingError::Storage("disk full".to_string())));
    assert!(service.sales_repo().find_by_term(&term_id).is_empty());
}

#[test]
fn a_refused_second_write_leaves_the_first_row_behind() {
    let (mut service, a, b, term_id) = faltering_service(2);
    let sale_id = service.register_sales(units(100), day(2025, 6, 1), a).unwrap();
    // One write is left: the negative leg is stored, the positive one is refused.
    let result = service.transform_sales(sale_id, b, day(2025, 6, 20));
    assert_eq!(result, Err(AccountingError::Storage("disk full".to_string())));
    let at_a = service.sales_repo().find_by_section_and_term(&a, &term_id);
    assert_eq!(at_a.len(), 2);
    let negative = at_a.iter().find(|r| r.id != sale_id).unwrap();
    assert_eq!(negative.amount, units(-100));
    assert_eq!(negative.sales_type, SalesType::Adjustment);
    assert_eq!(negative.related_sales_id, Some(sale_id));
    assert!(service.sales_repo().find_by_section_and_term(&b, &term_id).is_empty());

    let (mut service, a, b, term_id) = faltering_service(1);
    let result = service.rebalance_term(term_id, a, b, units(5), day(2025, 6, 20));
    assert_eq!(result, Err(AccountingError::Storage("disk full".to_string())));
    let at_a = service.sales_repo().find_by_section_and_term(&a, &term_id);
    assert_eq!(at_a.len(), 1);
    assert_eq!(at_a[0].amount, units(-5));
    assert!(service.sales_repo().find_by_section_and_term(&b, &term_id).is_empty());
}
