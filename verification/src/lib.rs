//! A small bookkeeping engine: sales are recorded against organisational
//! sections within fiscal terms, and moved or restated afterwards by adding
//! rows to an append-only ledger.

pub mod domain;
pub mod infrastructure;
pub mod application;
