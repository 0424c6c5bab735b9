//! Values, entities and storage interfaces of the ledger.

pub mod calendar;
pub mod decimal;
pub mod entity;
pub mod error;
pub mod identifier;
pub mod ledger;
pub mod repository;
pub mod value_object;
