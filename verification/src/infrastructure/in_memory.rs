//! Stores that keep their records in memory, in a hash map keyed by
//! identifier. A write never fails; the queries that are not by identifier
//! walk the whole map.

use crate::domain::entity::{Sales, Section, Term, TermStatus};
use crate::domain::identifier::Id;
use crate::domain::repository::{
    is_selection, selects, within, SalesRepository, SectionRepository, TermRepository,
};
use std::collections::HashMap;
use vstd::prelude::*;
use vstd::std_specs::hash::{group_hash_axioms, spec_hash_map_iter};
use vstd::std_specs::iter::IteratorSpec;

verus! {

/// Sections in memory.
pub struct InMemorySectionRepository {
    storage: HashMap<Id, Section>,
}

impl InMemorySectionRepository {
    /// An empty store.
    pub fn new() -> (repo: Self)
        ensures
            repo.sections() == Map::<Id, Section>::empty(),
    {
        InMemorySectionRepository { storage: HashMap::new() }
    }
}

impl Default for InMemorySectionRepository {
    fn default() -> (repo: Self)
        ensures
            repo.sections() == Map::<Id, Section>::empty(),
    {
        InMemorySectionRepository::new()
    }
}

impl SectionRepository for InMemorySectionRepository {
    closed spec fn sections(&self) -> Map<Id, Section> {
        self.storage@
    }

    open spec fn never_refuses(&self) -> bool {
        true
    }

    fn save(&mut self, section: Section) -> (r: Result<(), String>) {
        broadcast use group_hash_axioms;

        self.storage.insert(section.id, section);
        Ok(())
    }

    fn find_by_id(&self, id: &Id) -> (r: Option<Section>) {
        broadcast use group_hash_axioms;

        match self.storage.get(id) {
            Some(section) => Some(section.clone()),
            None => None,
        }
    }
}

/// Terms in memory.
pub struct InMemoryTermRepository {
    storage: HashMap<Id, Term>,
}

impl InMemoryTermRepository {
    /// An empty store.
    pub fn new() -> (repo: Self)
        ensures
            repo.terms() == Map::<Id, Term>::empty(),
    {
        InMemoryTermRepository { storage: HashMap::new() }
    }
}

impl Default for InMemoryTermRepository {
    fn default() -> (repo: Self)
        ensures
            repo.terms() == Map::<Id, Term>::empty(),
    {
        InMemoryTermRepository::new()
    }
}

impl TermRepository for InMemoryTermRepository {
    closed spec fn terms(&self) -> Map<Id, Term> {
        self.storage@
    }

    open spec fn never_refuses(&self) -> bool {
        true
    }

    fn save(&mut self, term: Term) -> (r: Result<(), String>) {
        broadcast use group_hash_axioms;

        self.storage.insert(term.id, term);
        Ok(())
    }

    fn find_by_id(&self, id: &Id) -> (r: Option<Term>) {
        broadcast use group_hash_axioms;

        match self.storage.get(id) {
            Some(term) => Some(term.clone()),
            None => None,
        }
    }

    fn find_open_term(&self) -> (r: Option<Term>) {
        broadcast use group_hash_axioms;

        for entry in it: self.storage.iter()
            invariant
                forall|i: int|
                    0 <= i < it.index() ==> (*it.seq()[i].1).status != TermStatus::Open,
        {
            let term = entry.1;
            if term.status == TermStatus::Open {
                assert(it.seq() == spec_hash_map_iter(&self.storage).remaining());
                assert(self.storage@.contains_key(*entry.0));
                return Some(term.clone());
            }
        }
        None
    }
}

/// Sales rows in memory.
pub struct InMemorySalesRepository {
    storage: HashMap<Id, Sales>,
}

impl InMemorySalesRepository {
    /// An empty store.
    pub fn new() -> (repo: Self)
        ensures
            repo.rows() == Map::<Id, Sales>::empty(),
    {
        InMemorySalesRepository { storage: HashMap::new() }
    }

    /// Walks the whole map and copies out the rows of the term `term_id`;
    /// where `section_id` is given, only those of that section.
    fn select(&self, section_id: Option<Id>, term_id: Id) -> (found: Vec<Sales>)
        ensures
            is_selection(self.rows(), within(section_id, term_id), found@),
    {
        broadcast use group_hash_axioms;

        let mut found: Vec<Sales> = Vec::new();
        let ghost wanted = within(section_id, term_id);
        let ghost all = spec_hash_map_iter(&self.storage).remaining();
        let ghost mut seen: int = 0;
        let ghost mut keys: Seq<Id> = Seq::empty();
        let ghost mut places: Seq<int> = Seq::empty();
        for entry in it: self.storage.iter()
            invariant
                wanted == within(section_id, term_id),
                all == it.seq(),
                seen == it.index(),
                keys.len() == found@.len(),
                places.len() == found@.len(),
                forall|j: int|
                    0 <= j < places.len() ==> 0 <= #[trigger] places[j] < seen && keys[j]
                        == *all[places[j]].0 && found@[j] == *all[places[j]].1 && wanted(found@[j]),
                forall|j: int, k: int|
                    0 <= j < k < places.len() ==> #[trigger] places[j] < #[trigger] places[k],
                forall|i: int| 0 <= i < seen && wanted(*all[i].1) ==> places.contains(i),
        {
            let sales = entry.1;
            let in_section = match section_id {
                Some(id) => sales.section_id == id,
                None => true,
            };
            let ghost earlier = places;
            assert(entry == all[seen]);
            if sales.term_id == term_id && in_section {
                let copy = sales.clone();
                found.push(copy);
                proof {
                    keys = keys.push(*entry.0);
                    places = places.push(seen);
                    assert(wanted(copy));
                    assert forall|j: int| 0 <= j < places.len() implies 0 <= #[trigger] places[j]
                        < seen + 1 && keys[j] == *all[places[j]].0 && found@[j]
                        == *all[places[j]].1 && wanted(found@[j]) by {
                        if j < earlier.len() {
                            assert(places[j] == earlier[j]);
                        }
                    }
                }
            }
            proof {
                assert forall|i: int|
                    0 <= i < seen + 1 && wanted(*all[i].1) implies places.contains(i) by {
                    if i < seen {
                        assert(earlier.contains(i));
                        let j = choose|j: int| 0 <= j < earlier.len() && earlier[j] == i;
                        assert(places[j] == i);
                    } else {
                        assert(places[places.len() - 1] == i);
                    }
                }
                seen = seen + 1;
            }
        }
        proof {
            assert(seen == all.len());
            assert forall|a: int, b: int| 0 <= a < b < keys.len() implies keys[a] != keys[b] by {
                assert(places[a] < places[b]);
                if keys[a] == keys[b] {
                    assert(self.storage@[*all[places[a]].0] == *all[places[a]].1);
                    assert(self.storage@[*all[places[b]].0] == *all[places[b]].1);
                    assert(all[places[a]] == all[places[b]]);
                }
            }
            assert forall|k: Id|
                #[trigger] self.storage@.contains_key(k) && wanted(
                    self.storage@[k],
                ) implies keys.contains(k) by {
                let entry = (&k, &self.storage@[k]);
                assert(all.contains(entry));
                let i = choose|i: int| 0 <= i < all.len() && all[i] == entry;
                assert(places.contains(i));
                let j = choose|j: int| 0 <= j < places.len() && places[j] == i;
                assert(keys[j] == k);
            }
            assert forall|j: int| 0 <= j < keys.len() implies self.storage@.contains_key(
                #[trigger] keys[j],
            ) && self.storage@[keys[j]] == found@[j] && wanted(found@[j]) by {
                assert(self.storage@.contains_key(*all[places[j]].0));
            }
            assert(selects(self.rows(), wanted, keys, found@));
        }
        found
    }
}

impl Default for InMemorySalesRepository {
    fn default() -> (repo: Self)
        ensures
            repo.rows() == Map::<Id, Sales>::empty(),
    {
        InMemorySalesRepository::new()
    }
}

impl SalesRepository for InMemorySalesRepository {
    closed spec fn rows(&self) -> Map<Id, Sales> {
        self.storage@
    }

    open spec fn never_refuses(&self) -> bool {
        true
    }

    fn save(&mut self, sales: Sales) -> (r: Result<(), String>) {
        broadcast use group_hash_axioms;

        self.storage.insert(sales.id, sales);
        Ok(())
    }

    fn find_by_id(&self, id: &Id) -> (r: Option<Sales>) {
        broadcast use group_hash_axioms;

        match self.storage.get(id) {
            Some(sales) => Some(sales.clone()),
            None => None,
        }
    }

    fn find_by_term(&self, term_id: &Id) -> (r: Vec<Sales>) {
        self.select(None, *term_id)
    }

    fn find_by_section_and_term(&self, section_id: &Id, term_id: &Id) -> (r: Vec<Sales>) {
        self.select(Some(*section_id), *term_id)
    }
}

} // verus!
